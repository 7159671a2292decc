//! Markdown documents: their events as the parser gives them, the
//! highlighting pass over them, and the HTML they are rendered to.

use crate::highlight::{
    all_accepted, inline_fragment, inline_fragment_of, is_plain, lemma_plain_kept,
    lemma_requests_grow, lemma_steps_len, plan, request_views, requests, requests_of, step_views,
    steps_of, EventKind, Request, Step, StepView,
};
use pulldown_cmark::{CodeBlockKind, Event, Options, Parser, Tag, TagEnd};
use vstd::prelude::*;

verus! {

/// Trusted: an event of a Markdown document, as pulldown-cmark defines it.
/// Nothing here looks inside one.
#[verifier::external_type_specification]
#[verifier::external_body]
pub struct ExEvent<'a>(pulldown_cmark::Event<'a>);

/// The events that pulldown-cmark's parser, with no extension switched on,
/// reads from a text.
pub uninterp spec fn parsed(input: Seq<char>) -> Seq<Event<'static>>;

/// What the highlighting pass reads of an event.
pub uninterp spec fn kind_of(event: Event<'_>) -> EventKind;

/// The event that stands for a block of HTML with the given text.
pub uninterp spec fn html_event_of(html: Seq<char>) -> Event<'static>;

/// The event that stands for HTML with the given text inside a line.
pub uninterp spec fn inline_html_event_of(html: Seq<char>) -> Event<'static>;

/// The HTML that pulldown-cmark writes for a sequence of events.
pub uninterp spec fn rendered(events: Seq<Event<'_>>) -> Seq<char>;

/// Trusted: `Parser::new_ext` with empty `Options` is an iterator over the
/// events of the text; what it yields depends on the text alone, and
/// [`parsed`] names it.
#[verifier::external_body]
fn parse_events<'a>(input: &'a str) -> (events: Vec<Event<'a>>)
    ensures
        events@ == parsed(input@),
{
    Parser::new_ext(input, Options::empty()).collect()
}

/// Trusted: tells the variants of `Event` apart and copies the text of those
/// that the highlighting pass reads; [`kind_of`] names the result.
#[verifier::external_body]
fn classify(event: &Event<'_>) -> (kind: EventKind)
    ensures
        kind == kind_of(*event),
{
    match event {
        Event::Start(Tag::CodeBlock(CodeBlockKind::Fenced(info))) => EventKind::FencedCodeStart(
            info.to_string(),
        ),
        Event::Start(Tag::CodeBlock(CodeBlockKind::Indented)) => EventKind::IndentedCodeStart,
        Event::End(TagEnd::CodeBlock) => EventKind::CodeEnd,
        Event::Code(code) => EventKind::InlineCode(code.to_string()),
        Event::Text(text) => EventKind::Text(text.to_string()),
        _ => EventKind::Other,
    }
}

/// Trusted: makes the variant `Event::Html` of the text; [`html_event_of`]
/// names it.
#[verifier::external_body]
fn html_event(html: &str) -> (event: Event<'static>)
    ensures
        event == html_event_of(html@),
{
    Event::Html(html.to_string().into())
}

/// Trusted: makes the variant `Event::InlineHtml` of the text;
/// [`inline_html_event_of`] names it.
#[verifier::external_body]
fn inline_html_event(html: &str) -> (event: Event<'static>)
    ensures
        event == inline_html_event_of(html@),
{
    Event::InlineHtml(html.to_string().into())
}

/// Trusted: `html::push_html` appends to a string the HTML of the events it
/// is given; what it writes depends on the events alone, and [`rendered`]
/// names it.
#[verifier::external_body]
fn render_events(events: Vec<Event<'_>>) -> (html: String)
    ensures
        html@ == rendered(events@),
{
    let mut html = String::new();
    pulldown_cmark::html::push_html(&mut html, events.into_iter());
    html
}

/// What the highlighting pass reads of each event.
pub open spec fn kinds_of(events: Seq<Event<'_>>) -> Seq<EventKind> {
    events.map_values(|event: Event<'_>| kind_of(event))
}

/// The events of a document after the highlighting pass. `steps` says what
/// becomes of each event. `outputs` holds, for each request of the steps in
/// order, what the highlighter made of it: inline code is fitted into its
/// line, a code block stands as the highlighter wrote it.
pub open spec fn assembled(
    events: Seq<Event<'_>>,
    steps: Seq<StepView>,
    outputs: Seq<Seq<char>>,
) -> Seq<Event<'_>>
    decreases steps.len(),
{
    if steps.len() == 0 || events.len() == 0 {
        Seq::empty()
    } else {
        let before = assembled(events.drop_last(), steps.drop_last(), outputs);
        let output = outputs[requests_of(steps.drop_last()).len() as int];
        match steps.last() {
            StepView::Keep => before.push(events.last()),
            StepView::Skip => before,
            StepView::Inline(_) => before.push(inline_html_event_of(inline_fragment_of(output))),
            StepView::Block(_) => before.push(html_event_of(output)),
        }
    }
}

/// Where every event stays, the document is put together as it was.
pub proof fn lemma_all_kept(events: Seq<Event<'_>>, steps: Seq<StepView>, outputs: Seq<Seq<char>>)
    requires
        steps.len() == events.len(),
        forall|i: int| 0 <= i < steps.len() ==> #[trigger] steps[i] == StepView::Keep,
    ensures
        assembled(events, steps, outputs) == events,
    decreases steps.len(),
{
    if steps.len() > 0 {
        lemma_all_kept(events.drop_last(), steps.drop_last(), outputs);
        assert(steps.last() == steps[steps.len() - 1]);
        assert(events.drop_last().push(events.last()) =~= events);
    }
}

/// The highlighting pass leaves a document without code as it is.
pub proof fn lemma_plain_unchanged(events: Seq<Event<'_>>, outputs: Seq<Seq<char>>)
    requires
        forall|i: int| 0 <= i < events.len() ==> is_plain(kind_of(#[trigger] events[i])),
    ensures
        assembled(events, steps_of(kinds_of(events)), outputs) == events,
        requests_of(steps_of(kinds_of(events))).len() == 0,
{
    lemma_plain_kept(kinds_of(events));
    lemma_all_kept(events, steps_of(kinds_of(events)), outputs);
}

/// The events of a document: those that the parser gave, one by one.
pub fn kinds<'a>(events: &Vec<Event<'a>>) -> (r: Vec<EventKind>)
    ensures
        r@ == kinds_of(events@),
{
    let mut out: Vec<EventKind> = Vec::new();
    let mut i: usize = 0;
    while i < events.len()
        invariant
            i <= events.len(),
            out@ == kinds_of(events@).take(i as int),
        decreases events.len() - i,
    {
        out.push(classify(&events[i]));
        i += 1;
    }
    out
}

/// Puts a document together again after the highlighting pass.
pub fn assemble<'a>(events: Vec<Event<'a>>, steps: &Vec<Step>, outputs: &Vec<String>) -> (r: Vec<
    Event<'a>,
>)
    requires
        events.len() == steps.len(),
        outputs.len() == requests_of(step_views(steps@)).len(),
    ensures
        r@ == assembled(events@, step_views(steps@), outputs.deep_view()),
{
    let mut out: Vec<Event<'a>> = Vec::new();
    let mut used: usize = 0;
    let mut i: usize = 0;
    let ghost all = events@;
    let ghost views = step_views(steps@);
    let ghost texts = outputs.deep_view();
    for event in it: events
        invariant
            it.seq() == all,
            i == it.index(),
            all.len() == steps.len(),
            views == step_views(steps@),
            texts == outputs.deep_view(),
            outputs.len() == requests_of(views).len(),
            used == requests_of(views.take(i as int)).len(),
            out@ == assembled(all.take(i as int), views.take(i as int), texts),
    {
        proof {
            assert(views.take(i + 1).drop_last() =~= views.take(i as int));
            assert(all.take(i + 1).drop_last() =~= all.take(i as int));
            lemma_requests_grow(views, i + 1);
        }
        match &steps[i] {
            Step::Keep => {
                out.push(event);
            },
            Step::Skip => {},
            Step::Inline(_) => {
                let fragment = inline_fragment(outputs[used].as_str());
                out.push(inline_html_event(fragment.as_str()));
                used += 1;
            },
            Step::Block(_) => {
                out.push(html_event(outputs[used].as_str()));
                used += 1;
            },
        }
        i += 1;
    }
    proof {
        assert(all.take(i as int) =~= all);
        assert(views.take(i as int) =~= views);
    }
    out
}

/// A Markdown document that the highlighting pass has read.
pub struct Document<'a> {
    events: Vec<Event<'a>>,
    steps: Vec<Step>,
}

impl<'a> Document<'a> {
    #[verifier::type_invariant]
    spec fn planned(self) -> bool {
        step_views(self.steps@) == steps_of(kinds_of(self.events@))
    }

    /// The events of the document.
    pub closed spec fn events(self) -> Seq<Event<'a>> {
        self.events@
    }

    /// What becomes of each event.
    pub closed spec fn steps(self) -> Seq<StepView> {
        step_views(self.steps@)
    }

    /// Parses a text and runs the highlighting pass over its events. There
    /// is a document exactly when the pass can read every event.
    pub fn parse(input: &'a str) -> (r: Option<Document<'a>>)
        ensures
            match r {
                Some(document) => {
                    &&& all_accepted(kinds_of(parsed(input@)))
                    &&& document.events() == parsed(input@)
                    &&& document.steps() == steps_of(kinds_of(parsed(input@)))
                },
                None => !all_accepted(kinds_of(parsed(input@))),
            },
    {
        let events = parse_events(input);
        let read = kinds(&events);
        match plan(&read) {
            Some(steps) => Some(Document { events, steps }),
            None => None,
        }
    }

    /// The pieces of code that go to the highlighter, in order.
    pub fn requests(&self) -> (r: Vec<Request>)
        ensures
            request_views(r@) == requests_of(self.steps()),
    {
        requests(&self.steps)
    }

    /// The HTML of the document, with what the highlighter made of each
    /// request in place. `outputs` must answer the requests one for one;
    /// otherwise there is no HTML.
    pub fn render(self, outputs: &Vec<String>) -> (r: Option<String>)
        ensures
            match r {
                Some(html) => {
                    &&& outputs.len() == requests_of(self.steps()).len()
                    &&& html@ == rendered(
                        assembled(self.events(), self.steps(), outputs.deep_view()),
                    )
                },
                None => outputs.len() != requests_of(self.steps()).len(),
            },
    {
        proof {
            use_type_invariant(&self);
            lemma_steps_len(kinds_of(self.events@));
        }
        let asked = requests(&self.steps);
        if outputs.len() != asked.len() {
            return None;
        }
        let Document { events, steps } = self;
        Some(render_events(assemble(events, &steps, outputs)))
    }
}

} // verus!
