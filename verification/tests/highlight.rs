use portfolio::highlight::{
    highlight_command, inline_fragment, plan, requests, restyle_command, EventKind, Highlighter,
    Step,
};

fn fenced(info: &str) -> EventKind {
    EventKind::FencedCodeStart(info.to_string())
}

fn code(text: &str) -> EventKind {
    EventKind::InlineCode(text.to_string())
}

fn text(text: &str) -> EventKind {
    EventKind::Text(text.to_string())
}

fn state(pass: &Highlighter) -> (bool, &str, &str) {
    (pass.in_code_block, pass.lang.as_str(), pass.pending.as_str())
}

fn show(step: &Step) -> String {
    match step {
        Step::Keep => "keep".to_string(),
        Step::Skip => "skip".to_string(),
        Step::Inline(request) => format!("inline[{}|{}]", request.lang, request.source),
        Step::Block(request) => format!("block[{}|{}]", request.lang, request.source),
    }
}

fn show_all(steps: &[Step]) -> Vec<String> {
    steps.iter().map(show).collect()
}

#[test]
fn the_pass_starts_outside_a_block_with_the_default_language() {
    let pass = Highlighter::new();
    assert_eq!(state(&pass), (false, "autodetect", ""));
}

#[test]
fn a_fence_opens_a_block_and_names_the_language() {
    let mut pass = Highlighter::new();
    assert_eq!(show(&pass.step(&fenced("rust"))), "skip");
    assert_eq!(state(&pass), (true, "rust", ""));
}

#[test]
fn a_fence_writes_mathematica_as_the_lexer_is_called() {
    let mut pass = Highlighter::new();
    pass.step(&fenced("mathematica"));
    assert_eq!(pass.lang, "Mathematica");
    pass.step(&fenced("x mathematica mathematica"));
    assert_eq!(pass.lang, "x Mathematica Mathematica");
}

#[test]
fn a_fence_without_a_name_leaves_no_language() {
    let mut pass = Highlighter::new();
    pass.step(&fenced(""));
    assert_eq!(state(&pass), (true, "", ""));
    assert_eq!(show(&pass.step(&code("abc"))), "inline[|abc]");
}

#[test]
fn an_indented_block_keeps_the_language_in_force() {
    let mut pass = Highlighter::new();
    assert_eq!(show(&pass.step(&EventKind::IndentedCodeStart)), "skip");
    assert_eq!(state(&pass), (true, "autodetect", ""));
    let mut pass = Highlighter::new();
    pass.step(&fenced("c"));
    pass.step(&EventKind::CodeEnd);
    pass.step(&EventKind::IndentedCodeStart);
    assert_eq!(state(&pass), (true, "c", ""));
}

#[test]
fn text_in_a_block_is_held_back_and_text_outside_stays() {
    let mut pass = Highlighter::new();
    assert_eq!(show(&pass.step(&text("before"))), "keep");
    assert_eq!(state(&pass), (false, "autodetect", ""));
    pass.step(&fenced("rust"));
    assert_eq!(show(&pass.step(&text("let x = 1;\n"))), "skip");
    assert_eq!(show(&pass.step(&text("let y = 2;\n"))), "skip");
    assert_eq!(state(&pass), (true, "rust", "let x = 1;\nlet y = 2;\n"));
}

#[test]
fn the_end_of_a_block_sends_its_text_to_the_highlighter() {
    let mut pass = Highlighter::new();
    pass.step(&fenced("rust"));
    pass.step(&text("fn main() {}\n"));
    assert_eq!(show(&pass.step(&EventKind::CodeEnd)), "block[rust|fn main() {}\n]");
    assert_eq!(state(&pass), (false, "rust", ""));
}

#[test]
fn an_end_without_a_block_is_dropped() {
    let mut pass = Highlighter::new();
    assert_eq!(show(&pass.step(&EventKind::CodeEnd)), "skip");
    assert_eq!(state(&pass), (false, "autodetect", ""));
}

#[test]
fn other_events_stay() {
    let mut pass = Highlighter::new();
    assert_eq!(show(&pass.step(&EventKind::Other)), "keep");
    pass.step(&fenced("rust"));
    assert_eq!(show(&pass.step(&EventKind::Other)), "keep");
    assert_eq!(state(&pass), (true, "rust", ""));
}

#[test]
fn inline_code_is_highlighted_in_the_language_in_force() {
    let mut pass = Highlighter::new();
    assert_eq!(show(&pass.step(&code("x + y"))), "inline[autodetect|x + y]");
    assert_eq!(state(&pass), (false, "autodetect", ""));
}

#[test]
fn inline_code_loses_the_language_names_it_begins_with() {
    let mut pass = Highlighter::new();
    assert_eq!(show(&pass.step(&code("autodetectautodetect x"))), "inline[autodetect| x]");
    pass.step(&fenced("rust"));
    pass.step(&EventKind::CodeEnd);
    assert_eq!(show(&pass.step(&code("rustacean"))), "inline[rust|acean]");
}

#[test]
fn inline_code_can_name_its_language() {
    let mut pass = Highlighter::new();
    assert_eq!(show(&pass.step(&code("lang@rust let x = 1;"))), "inline[rust| let x = 1;]");
    assert_eq!(state(&pass), (false, "rust", ""));
    assert_eq!(show(&pass.step(&code("lang@lang@c int y;"))), "inline[c| int y;]");
    assert_eq!(show(&pass.step(&code("lang@  go  x lang@y"))), "inline[go|  go  x lang@y]");
    assert_eq!(show(&pass.step(&code("lang@aa lang@bb"))), "inline[aa| lang@bb]");
    assert_eq!(show(&pass.step(&code("lang@a aab"))), "inline[a| aab]");
}

#[test]
fn the_language_named_inline_stays_in_force() {
    let mut pass = Highlighter::new();
    pass.step(&code("lang@python x"));
    pass.step(&EventKind::IndentedCodeStart);
    pass.step(&text("print(1)\n"));
    assert_eq!(show(&pass.step(&EventKind::CodeEnd)), "block[python|print(1)\n]");
    assert_eq!(show(&pass.step(&code("y"))), "inline[python|y]");
}

#[test]
fn a_directive_without_a_name_cannot_be_read() {
    for bad in ["lang@", "lang@ ", "lang@\t\n", "lang@lang@", "lang@ lang@ "] {
        let mut pass = Highlighter::new();
        pass.step(&fenced("rust"));
        pass.step(&text("held"));
        assert!(pass.try_step(&code(bad)).is_none(), "{bad:?}");
        assert_eq!(state(&pass), (true, "rust", "held"));
    }
}

#[test]
fn try_step_reads_what_step_reads() {
    let events = [
        fenced("mathematica"),
        text("Plot[x]"),
        EventKind::CodeEnd,
        code("lang@c x"),
        code("c"),
        EventKind::Other,
        EventKind::IndentedCodeStart,
        EventKind::CodeEnd,
        EventKind::CodeEnd,
    ];
    let mut one = Highlighter::new();
    let mut other = Highlighter::new();
    for event in &events {
        let tried = one.try_step(event).map(|step| show(&step));
        assert_eq!(tried, Some(show(&other.step(event))));
        assert_eq!(state(&one), state(&other));
    }
}

#[test]
fn plan_gives_one_step_for_each_event() {
    let events = vec![
        text("intro"),
        fenced("mathematica"),
        text("Plot[x]\n"),
        text("Plot[y]\n"),
        EventKind::CodeEnd,
        EventKind::Other,
        code("lang@c int x"),
        EventKind::IndentedCodeStart,
        text("y;\n"),
        EventKind::CodeEnd,
        EventKind::CodeEnd,
        text("outro"),
    ];
    let steps = plan(&events).unwrap();
    assert_eq!(
        show_all(&steps),
        vec![
            "keep",
            "skip",
            "skip",
            "skip",
            "block[Mathematica|Plot[x]\nPlot[y]\n]",
            "keep",
            "inline[c| int x]",
            "skip",
            "skip",
            "block[c|y;\n]",
            "skip",
            "keep",
        ]
    );
    let asked: Vec<(String, String)> =
        requests(&steps).into_iter().map(|request| (request.lang, request.source)).collect();
    assert_eq!(
        asked,
        vec![
            ("Mathematica".to_string(), "Plot[x]\nPlot[y]\n".to_string()),
            ("c".to_string(), " int x".to_string()),
            ("c".to_string(), "y;\n".to_string()),
        ]
    );
}

#[test]
fn plan_of_nothing_is_empty() {
    let steps = plan(&Vec::new()).unwrap();
    assert!(steps.is_empty());
    assert!(requests(&steps).is_empty());
}

#[test]
fn plan_fails_on_a_directive_without_a_name() {
    assert!(plan(&vec![text("a"), code("lang@"), text("b")]).is_none());
    assert!(plan(&vec![code("lang@ok"), code("lang@  ")]).is_none());
    assert!(plan(&vec![code("lang@ok"), code("  lang@")]).is_some());
}

#[test]
fn nothing_is_pending_once_no_block_is_open() {
    let events = [
        text("a"),
        fenced("x"),
        text("b"),
        EventKind::IndentedCodeStart,
        text("c"),
        EventKind::CodeEnd,
        text("d"),
        EventKind::CodeEnd,
        code("e"),
    ];
    let mut pass = Highlighter::new();
    for event in &events {
        pass.step(event);
        if !pass.in_code_block {
            assert_eq!(pass.pending, "");
        }
    }
}

#[test]
fn highlight_command_names_the_lexer() {
    let command = highlight_command("rust");
    assert_eq!(command.program, "chroma");
    assert_eq!(
        command.arguments,
        vec!["--lexer=rust", "--style=github-dark", "--html", "--html-only"]
    );
    assert_eq!(highlight_command("").arguments[0], "--lexer=");
    assert_eq!(highlight_command("a b").arguments[0], "--lexer=a b");
}

#[test]
fn restyle_command_doubles_the_classes() {
    let command = restyle_command();
    assert_eq!(command.program, "ruplacer");
    assert_eq!(
        command.arguments,
        vec!["class=\"([a-zA-Z0-9]+)\"", "class=\"dark:$1 $1\"", "-"]
    );
}

#[test]
fn inline_fragment_unwraps_and_restyles() {
    assert_eq!(
        inline_fragment(
            "\n<pre class=\"dark:chroma chroma\"><code><span class=\"dark:line line\"><span class=\"dark:cl cl\"><span class=\"dark:kd kd\">let</span> x\n</span></span></code></pre>\n"
        ),
        "<code class=\"dark:chroma chroma\"><span ><span class=\"dark:cl cl\"><span class=\"dark:kd kd\">let</span> x\n</span></span></code>"
    );
    assert_eq!(inline_fragment(""), "");
    assert_eq!(inline_fragment("  plain  "), "plain");
    assert_eq!(
        inline_fragment("<pre class=\"dark:chroma chroma\"><pre class=\"dark:chroma chroma\">x</pre></pre>"),
        "x"
    );
    assert_eq!(inline_fragment("<code><code>"), "<code class=\"dark:chroma chroma\"><code class=\"dark:chroma chroma\">");
}

#[test]
fn inline_fragment_agrees_with_the_same_steps_of_std() {
    let samples = [
        " <pre class=\"dark:chroma chroma\"> <code>a</code> </pre> ",
        "<pre class=\"dark:chroma chroma\"><code class=\"dark:line line\">class=\"dark:line line\"</code></pre></pre>\n\n",
        "</pre>",
        "<code>",
        "\u{a0}<pre class=\"dark:chroma chroma\">é</pre>\u{3000}",
    ];
    for sample in samples {
        let expected = sample
            .trim()
            .trim_start_matches("<pre class=\"dark:chroma chroma\">")
            .trim_end_matches("</pre>")
            .replace("<code>", "<code class=\"dark:chroma chroma\">")
            .replace("class=\"dark:line line\"", "");
        assert_eq!(inline_fragment(sample), expected, "{sample:?}");
    }
}
