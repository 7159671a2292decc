//! The highlighting pass over the events of a Markdown document: which
//! events stay, which are dropped, and which pieces of code go to the
//! highlighter, in which language.

use crate::command::{CommandLine, CommandLineView};
use crate::text::{
    first_word, replace_all, replaced, starts_with, trim, trim_end_matches, trim_start_matches,
    trimmed, without_prefixes, without_suffixes, words,
};
use vstd::prelude::*;

verus! {

/// The language that code is highlighted in until a document names one.
pub const DEFAULT_LANGUAGE: &'static str = "autodetect";

/// What inline code begins with when it names its language.
pub const DIRECTIVE: &'static str = "lang@";

/// The name of the Mathematica lexer as documents write it.
pub const MATHEMATICA_WRITTEN: &'static str = "mathematica";

/// The name of the Mathematica lexer as the highlighter knows it.
pub const MATHEMATICA_LEXER: &'static str = "Mathematica";

/// What the pass reads of one event of a document.
pub enum EventKind {
    /// A fenced code block begins; the text is its info string.
    FencedCodeStart(String),
    /// An indented code block begins.
    IndentedCodeStart,
    /// A code block ends.
    CodeEnd,
    /// Inline code.
    InlineCode(String),
    /// A run of text.
    Text(String),
    /// Any other event.
    Other,
}

/// A piece of code to highlight.
pub struct Request {
    pub lang: String,
    pub source: String,
}

/// A request as a value of the specification.
pub struct RequestView {
    pub lang: Seq<char>,
    pub source: Seq<char>,
}

impl View for Request {
    type V = RequestView;

    open spec fn view(&self) -> RequestView {
        RequestView { lang: self.lang@, source: self.source@ }
    }
}

/// What becomes of one event.
pub enum Step {
    /// The event stays as it is.
    Keep,
    /// The event is dropped.
    Skip,
    /// The event gives way to the highlighted form of inline code.
    Inline(Request),
    /// The event gives way to the highlighted form of a whole code block.
    Block(Request),
}

/// A step as a value of the specification.
pub enum StepView {
    Keep,
    Skip,
    Inline(RequestView),
    Block(RequestView),
}

impl View for Step {
    type V = StepView;

    open spec fn view(&self) -> StepView {
        match self {
            Step::Keep => StepView::Keep,
            Step::Skip => StepView::Skip,
            Step::Inline(request) => StepView::Inline(request@),
            Step::Block(request) => StepView::Block(request@),
        }
    }
}

/// The state of the pass between two events.
pub struct Highlighter {
    /// Whether a code block is open.
    pub in_code_block: bool,
    /// The language named last.
    pub lang: String,
    /// The text of the open code block so far.
    pub pending: String,
}

/// The state of the pass as a value of the specification.
pub struct HighlighterView {
    pub in_code_block: bool,
    pub lang: Seq<char>,
    pub pending: Seq<char>,
}

impl View for Highlighter {
    type V = HighlighterView;

    open spec fn view(&self) -> HighlighterView {
        HighlighterView {
            in_code_block: self.in_code_block,
            lang: self.lang@,
            pending: self.pending@,
        }
    }
}

/// The state before the first event.
pub open spec fn initial() -> HighlighterView {
    HighlighterView {
        in_code_block: false,
        lang: DEFAULT_LANGUAGE@,
        pending: Seq::empty(),
    }
}

/// The language that a fence's info string names.
pub open spec fn fence_language(info: Seq<char>) -> Seq<char> {
    replaced(info, MATHEMATICA_WRITTEN@, MATHEMATICA_LEXER@)
}

/// Whether inline code names its language.
pub open spec fn is_directive(code: Seq<char>) -> bool {
    DIRECTIVE@.is_prefix_of(code)
}

/// The words of inline code once every directive mark is taken out. The
/// first of them is the language that the code names.
pub open spec fn directive_words(code: Seq<char>) -> Seq<Seq<char>> {
    words(replaced(code, DIRECTIVE@, Seq::empty()))
}

/// The language in force once inline code `code` has been read with `lang`
/// in force before it.
pub open spec fn inline_language(lang: Seq<char>, code: Seq<char>) -> Seq<char> {
    if is_directive(code) {
        directive_words(code)[0]
    } else {
        lang
    }
}

/// What of inline code `code` is highlighted in `lang`: the code without the
/// directive marks and then without the language names that it begins with.
pub open spec fn inline_source(lang: Seq<char>, code: Seq<char>) -> Seq<char> {
    without_prefixes(without_prefixes(code, DIRECTIVE@), lang)
}

/// Whether the pass can read the event: inline code that names its language
/// must hold a name, that is a character that is not whitespace, beside the
/// directive marks.
pub open spec fn accepts(kind: EventKind) -> bool {
    kind matches EventKind::InlineCode(code) ==> (is_directive(code@) ==> directive_words(
        code@,
    ).len() > 0)
}

/// The state after an event.
pub open spec fn next_state(state: HighlighterView, kind: EventKind) -> HighlighterView {
    match kind {
        EventKind::FencedCodeStart(info) => HighlighterView {
            in_code_block: true,
            lang: fence_language(info@),
            ..state
        },
        EventKind::IndentedCodeStart => HighlighterView { in_code_block: true, ..state },
        EventKind::CodeEnd => if state.in_code_block {
            HighlighterView { in_code_block: false, pending: Seq::empty(), ..state }
        } else {
            state
        },
        EventKind::InlineCode(code) => HighlighterView {
            lang: inline_language(state.lang, code@),
            ..state
        },
        EventKind::Text(text) => if state.in_code_block {
            HighlighterView { pending: state.pending + text@, ..state }
        } else {
            state
        },
        EventKind::Other => state,
    }
}

/// What becomes of an event read in state `state`.
pub open spec fn action(state: HighlighterView, kind: EventKind) -> StepView {
    match kind {
        EventKind::FencedCodeStart(_) => StepView::Skip,
        EventKind::IndentedCodeStart => StepView::Skip,
        EventKind::CodeEnd => if state.in_code_block {
            StepView::Block(RequestView { lang: state.lang, source: state.pending })
        } else {
            StepView::Skip
        },
        EventKind::InlineCode(code) => {
            let lang = inline_language(state.lang, code@);
            StepView::Inline(RequestView { lang, source: inline_source(lang, code@) })
        },
        EventKind::Text(_) => if state.in_code_block {
            StepView::Skip
        } else {
            StepView::Keep
        },
        EventKind::Other => StepView::Keep,
    }
}

impl Highlighter {
    /// The pass before the first event: no block open, nothing pending, the
    /// default language in force.
    pub fn new() -> (r: Highlighter)
        ensures
            r@ == initial(),
    {
        Highlighter {
            in_code_block: false,
            lang: String::from_str(DEFAULT_LANGUAGE),
            pending: String::new(),
        }
    }

    /// Reads one event. An event that the pass cannot read leaves the state
    /// as it was and gives `None`.
    pub fn try_step(&mut self, kind: &EventKind) -> (r: Option<Step>)
        ensures
            accepts(*kind) ==> r is Some && r->0@ == action(old(self)@, *kind) && final(self)@
                == next_state(old(self)@, *kind),
            !accepts(*kind) ==> r is None && *final(self) == *old(self),
    {
        match kind {
            EventKind::FencedCodeStart(info) => {
                self.in_code_block = true;
                self.lang = replace_all(info.as_str(), MATHEMATICA_WRITTEN, MATHEMATICA_LEXER);
                Some(Step::Skip)
            },
            EventKind::IndentedCodeStart => {
                self.in_code_block = true;
                Some(Step::Skip)
            },
            EventKind::CodeEnd => {
                if self.in_code_block {
                    let request = Request { lang: self.lang.clone(), source: self.pending.clone() };
                    self.pending = String::new();
                    self.in_code_block = false;
                    Some(Step::Block(request))
                } else {
                    Some(Step::Skip)
                }
            },
            EventKind::InlineCode(code) => {
                proof {
                    reveal_strlit("");
                    assert(""@ =~= Seq::<char>::empty());
                }
                if starts_with(code.as_str(), DIRECTIVE) {
                    let named = replace_all(code.as_str(), DIRECTIVE, "");
                    match first_word(named.as_str()) {
                        Some(word) => {
                            self.lang = word;
                        },
                        None => {
                            return None;
                        },
                    }
                }
                let unmarked = trim_start_matches(code.as_str(), DIRECTIVE);
                let source = trim_start_matches(unmarked.as_str(), self.lang.as_str());
                Some(Step::Inline(Request { lang: self.lang.clone(), source }))
            },
            EventKind::Text(text) => {
                if self.in_code_block {
                    self.pending.append(text.as_str());
                    Some(Step::Skip)
                } else {
                    Some(Step::Keep)
                }
            },
            EventKind::Other => Some(Step::Keep),
        }
    }

    /// Reads one event that the pass can read.
    pub fn step(&mut self, kind: &EventKind) -> (step: Step)
        requires
            accepts(*kind),
        ensures
            step@ == action(old(self)@, *kind),
            final(self)@ == next_state(old(self)@, *kind),
    {
        self.try_step(kind).unwrap()
    }
}

/// The state after the events `kinds`, read in order from the initial state.
pub open spec fn state_after(kinds: Seq<EventKind>) -> HighlighterView
    decreases kinds.len(),
{
    if kinds.len() == 0 {
        initial()
    } else {
        next_state(state_after(kinds.drop_last()), kinds.last())
    }
}

/// What becomes of each of the events `kinds`, read in order from the
/// initial state.
pub open spec fn steps_of(kinds: Seq<EventKind>) -> Seq<StepView>
    decreases kinds.len(),
{
    if kinds.len() == 0 {
        Seq::empty()
    } else {
        steps_of(kinds.drop_last()).push(action(state_after(kinds.drop_last()), kinds.last()))
    }
}

/// Whether the pass can read every one of the events.
pub open spec fn all_accepted(kinds: Seq<EventKind>) -> bool {
    forall|i: int| 0 <= i < kinds.len() ==> accepts(#[trigger] kinds[i])
}

/// The views of a sequence of steps.
pub open spec fn step_views(steps: Seq<Step>) -> Seq<StepView> {
    steps.map_values(|step: Step| step@)
}

/// The views of a sequence of requests.
pub open spec fn request_views(requests: Seq<Request>) -> Seq<RequestView> {
    requests.map_values(|request: Request| request@)
}

/// The pieces of code that the steps send to the highlighter, in order.
pub open spec fn requests_of(steps: Seq<StepView>) -> Seq<RequestView>
    decreases steps.len(),
{
    if steps.len() == 0 {
        Seq::empty()
    } else {
        let before = requests_of(steps.drop_last());
        match steps.last() {
            StepView::Inline(request) => before.push(request),
            StepView::Block(request) => before.push(request),
            _ => before,
        }
    }
}

/// Every event gets one step.
pub proof fn lemma_steps_len(kinds: Seq<EventKind>)
    ensures
        steps_of(kinds).len() == kinds.len(),
    decreases kinds.len(),
{
    if kinds.len() > 0 {
        lemma_steps_len(kinds.drop_last());
    }
}

/// Text is pending only while a code block is open: whatever events came,
/// once no block is open nothing is pending.
pub proof fn lemma_pending_only_in_block(kinds: Seq<EventKind>)
    ensures
        !state_after(kinds).in_code_block ==> state_after(kinds).pending.len() == 0,
    decreases kinds.len(),
{
    if kinds.len() > 0 {
        lemma_pending_only_in_block(kinds.drop_last());
    }
}

/// Whether an event has nothing to do with code.
pub open spec fn is_plain(kind: EventKind) -> bool {
    kind is Text || kind is Other
}

/// A document without code passes untouched: the pass stays in its
/// initial state, every event stays, and nothing goes to the highlighter.
pub proof fn lemma_plain_kept(kinds: Seq<EventKind>)
    requires
        forall|i: int| 0 <= i < kinds.len() ==> is_plain(#[trigger] kinds[i]),
    ensures
        state_after(kinds) == initial(),
        steps_of(kinds).len() == kinds.len(),
        forall|i: int| 0 <= i < kinds.len() ==> #[trigger] steps_of(kinds)[i] == StepView::Keep,
        requests_of(steps_of(kinds)).len() == 0,
    decreases kinds.len(),
{
    if kinds.len() > 0 {
        lemma_plain_kept(kinds.drop_last());
        assert(is_plain(kinds.last()));
        assert(steps_of(kinds).drop_last() =~= steps_of(kinds.drop_last()));
    }
}

/// The requests of the first steps are among the requests of all: there are
/// no more of them.
pub proof fn lemma_requests_grow(steps: Seq<StepView>, n: int)
    requires
        0 <= n <= steps.len(),
    ensures
        requests_of(steps.take(n)).len() <= requests_of(steps).len(),
    decreases steps.len(),
{
    if n < steps.len() {
        lemma_requests_grow(steps.drop_last(), n);
        assert(steps.drop_last().take(n) =~= steps.take(n));
    } else {
        assert(steps.take(n) =~= steps);
    }
}

/// Runs the pass over the events of a document. There is a plan, one step
/// for each event, exactly when the pass can read every event.
pub fn plan(kinds: &Vec<EventKind>) -> (r: Option<Vec<Step>>)
    ensures
        match r {
            Some(steps) => all_accepted(kinds@) && step_views(steps@) == steps_of(kinds@),
            None => !all_accepted(kinds@),
        },
{
    let mut pass = Highlighter::new();
    let mut steps: Vec<Step> = Vec::new();
    let mut i: usize = 0;
    while i < kinds.len()
        invariant
            i <= kinds.len(),
            all_accepted(kinds@.take(i as int)),
            pass@ == state_after(kinds@.take(i as int)),
            step_views(steps@) == steps_of(kinds@.take(i as int)),
        decreases kinds.len() - i,
    {
        assert(kinds@.take(i + 1).drop_last() =~= kinds@.take(i as int));
        match pass.try_step(&kinds[i]) {
            Some(step) => {
                steps.push(step);
            },
            None => {
                return None;
            },
        }
        i += 1;
    }
    assert(kinds@.take(i as int) =~= kinds@);
    Some(steps)
}

/// The pieces of code that a plan sends to the highlighter, in order.
pub fn requests(steps: &Vec<Step>) -> (r: Vec<Request>)
    ensures
        request_views(r@) == requests_of(step_views(steps@)),
{
    let mut out: Vec<Request> = Vec::new();
    let mut i: usize = 0;
    let ghost views = step_views(steps@);
    while i < steps.len()
        invariant
            i <= steps.len(),
            views == step_views(steps@),
            request_views(out@) == requests_of(views.take(i as int)),
        decreases steps.len() - i,
    {
        assert(views.take(i + 1).drop_last() =~= views.take(i as int));
        match &steps[i] {
            Step::Inline(request) => {
                out.push(Request { lang: request.lang.clone(), source: request.source.clone() });
            },
            Step::Block(request) => {
                out.push(Request { lang: request.lang.clone(), source: request.source.clone() });
            },
            _ => {},
        }
        i += 1;
    }
    assert(views.take(i as int) =~= views);
    out
}

/// The program that highlights code.
pub const HIGHLIGHTER: &'static str = "chroma";

/// The program that restyles the output of the highlighter.
pub const RESTYLER: &'static str = "ruplacer";

/// The option that names the lexer.
pub const LEXER_OPTION: &'static str = "--lexer=";

/// The option that names the style.
pub const STYLE_OPTION: &'static str = "--style=github-dark";

/// The option that asks for HTML.
pub const HTML_OPTION: &'static str = "--html";

/// The option that asks for the highlighted code alone, without a page around it.
pub const HTML_ONLY_OPTION: &'static str = "--html-only";

/// The pattern that finds a class attribute.
pub const CLASS_PATTERN: &'static str = r#"class="([a-zA-Z0-9]+)""#;

/// What a class attribute becomes: the class and its dark variant.
pub const CLASS_REWRITE: &'static str = r#"class="dark:$1 $1""#;

/// The name by which the restyler reads its standard input.
pub const STANDARD_INPUT: &'static str = "-";

/// The start of the `pre` element that wraps the restyled output.
pub const PRE_OPEN: &'static str = "<pre class=\"dark:chroma chroma\">";

/// The end of the `pre` element.
pub const PRE_CLOSE: &'static str = "</pre>";

/// The `code` element as the highlighter opens it.
pub const CODE_OPEN: &'static str = "<code>";

/// The `code` element as it stands in a line of text.
pub const CODE_OPEN_STYLED: &'static str = "<code class=\"dark:chroma chroma\">";

/// The class that marks a line of highlighted code.
pub const LINE_CLASS: &'static str = "class=\"dark:line line\"";

/// The command line that highlights code in `lang`; the code goes to its
/// standard input.
pub open spec fn highlight_command_of(lang: Seq<char>) -> CommandLineView {
    CommandLineView {
        program: HIGHLIGHTER@,
        arguments: seq![LEXER_OPTION@ + lang, STYLE_OPTION@, HTML_OPTION@, HTML_ONLY_OPTION@],
    }
}

/// The command line that gives each class of the highlighter's output,
/// read from standard input, its dark variant.
pub open spec fn restyle_command_of() -> CommandLineView {
    CommandLineView {
        program: RESTYLER@,
        arguments: seq![CLASS_PATTERN@, CLASS_REWRITE@, STANDARD_INPUT@],
    }
}

/// The command line that highlights code in `lang`.
pub fn highlight_command(lang: &str) -> (r: CommandLine)
    ensures
        r@ == highlight_command_of(lang@),
{
    let mut lexer = String::from_str(LEXER_OPTION);
    lexer.append(lang);
    let mut command = CommandLine::new(HIGHLIGHTER);
    command.arg(lexer.as_str());
    command.arg(STYLE_OPTION);
    command.arg(HTML_OPTION);
    command.arg(HTML_ONLY_OPTION);
    assert(command@.arguments =~= highlight_command_of(lang@).arguments);
    command
}

/// The command line that restyles the highlighter's output.
pub fn restyle_command() -> (r: CommandLine)
    ensures
        r@ == restyle_command_of(),
{
    let mut command = CommandLine::new(RESTYLER);
    command.arg(CLASS_PATTERN);
    command.arg(CLASS_REWRITE);
    command.arg(STANDARD_INPUT);
    assert(command@.arguments =~= restyle_command_of().arguments);
    command
}

/// Highlighted inline code as it stands in a line of text: the restyled
/// output without the whitespace around it and without the `pre` element
/// that wraps it, its `code` element styled, its lines unmarked.
pub open spec fn inline_fragment_of(output: Seq<char>) -> Seq<char> {
    let bare = without_suffixes(without_prefixes(trimmed(output), PRE_OPEN@), PRE_CLOSE@);
    replaced(replaced(bare, CODE_OPEN@, CODE_OPEN_STYLED@), LINE_CLASS@, Seq::empty())
}

/// Fits the restyled output of the highlighter into a line of text.
pub fn inline_fragment(output: &str) -> (r: String)
    ensures
        r@ == inline_fragment_of(output@),
{
    proof {
        reveal_strlit("");
        assert(""@ =~= Seq::<char>::empty());
    }
    let inner = trim(output);
    let opened = trim_start_matches(inner.as_str(), PRE_OPEN);
    let bare = trim_end_matches(opened.as_str(), PRE_CLOSE);
    let styled = replace_all(bare.as_str(), CODE_OPEN, CODE_OPEN_STYLED);
    replace_all(styled.as_str(), LINE_CLASS, "")
}

} // verus!
