//! HTML text that needs no further escaping, and the escaping that turns
//! plain text into it.

use vstd::prelude::*;

verus! {

/// What one character of plain text becomes in HTML: the four characters
/// that HTML reads as syntax become entities, every other character stays.
pub open spec fn escaped_char(c: char) -> Seq<char> {
    if c == '&' {
        seq!['&', 'a', 'm', 'p', ';']
    } else if c == '<' {
        seq!['&', 'l', 't', ';']
    } else if c == '>' {
        seq!['&', 'g', 't', ';']
    } else if c == '"' {
        seq!['&', 'q', 'u', 'o', 't', ';']
    } else {
        seq![c]
    }
}

/// Plain text as HTML: each character escaped, in order.
pub open spec fn escaped(s: Seq<char>) -> Seq<char>
    decreases s.len(),
{
    if s.len() == 0 {
        Seq::empty()
    } else {
        escaped(s.drop_last()) + escaped_char(s.last())
    }
}

/// Escaping goes piece by piece: the escaped form of a concatenation is the
/// concatenation of the escaped forms.
pub proof fn lemma_escaped_concat(a: Seq<char>, b: Seq<char>)
    ensures
        escaped(a + b) == escaped(a) + escaped(b),
    decreases b.len(),
{
    if b.len() > 0 {
        lemma_escaped_concat(a, b.drop_last());
        assert((a + b).drop_last() =~= a + b.drop_last());
    }
}

/// Escaped text is inert: it holds no `<`, no `>` and no `"`, so it can
/// neither open or close a tag nor end an attribute value.
pub proof fn lemma_escaped_inert(s: Seq<char>)
    ensures
        forall|i: int|
            0 <= i < escaped(s).len() ==> {
                let c = #[trigger] escaped(s)[i];
                c != '<' && c != '>' && c != '"'
            },
    decreases s.len(),
{
    if s.len() > 0 {
        lemma_escaped_inert(s.drop_last());
        let head = escaped(s.drop_last());
        let tail = escaped_char(s.last());
        assert forall|i: int| 0 <= i < escaped(s).len() implies {
            let c = #[trigger] escaped(s)[i];
            c != '<' && c != '>' && c != '"'
        } by {
            if i < head.len() {
                assert(escaped(s)[i] == head[i]);
            } else {
                assert(escaped(s)[i] == tail[i - head.len()]);
            }
        }
    }
}

/// Text without `&`, `<`, `>` and `"` is its own escaped form.
pub proof fn lemma_escaped_plain(s: Seq<char>)
    requires
        forall|i: int|
            0 <= i < s.len() ==> {
                let c = #[trigger] s[i];
                c != '&' && c != '<' && c != '>' && c != '"'
            },
    ensures
        escaped(s) == s,
    decreases s.len(),
{
    if s.len() > 0 {
        lemma_escaped_plain(s.drop_last());
    }
}

/// Trusted: maud's `Render::render_to` for `str` appends the text to the
/// buffer with `&`, `<`, `>` and `"` written as `&amp;`, `&lt;`, `&gt;` and
/// `&quot;`, and every other character unchanged.
#[verifier::external_body]
fn escape_into(buffer: &mut String, text: &str)
    ensures
        final(buffer)@ == old(buffer)@ + escaped(text@),
{
    maud::Render::render_to(text, buffer);
}

/// A piece of HTML. Its text is written out as it is, never escaped again.
#[derive(Debug)]
pub struct Markup(pub String);

impl View for Markup {
    type V = Seq<char>;

    open spec fn view(&self) -> Seq<char> {
        self.0@
    }
}

impl Markup {
    /// The empty piece.
    pub fn new() -> (r: Markup)
        ensures
            r@ == Seq::<char>::empty(),
    {
        Markup(String::new())
    }

    /// `html` taken as HTML, unchanged.
    pub fn pre_escaped(html: &str) -> (r: Markup)
        ensures
            r@ == html@,
    {
        Markup(String::from_str(html))
    }

    /// `text` taken as plain text, escaped.
    pub fn text(text: &str) -> (r: Markup)
        ensures
            r@ == escaped(text@),
    {
        let mut buffer = String::new();
        escape_into(&mut buffer, text);
        Markup(buffer)
    }

    /// Appends `html` unchanged.
    pub fn push_raw(&mut self, html: &str)
        ensures
            final(self)@ == old(self)@ + html@,
    {
        self.0.append(html);
    }

    /// Appends `text`, escaped.
    pub fn push_text(&mut self, text: &str)
        ensures
            final(self)@ == old(self)@ + escaped(text@),
    {
        escape_into(&mut self.0, text);
    }

    /// Appends another piece.
    pub fn push(&mut self, other: &Markup)
        ensures
            final(self)@ == old(self)@ + other@,
    {
        self.0.append(other.0.as_str());
    }

    /// The HTML text.
    pub fn as_str(&self) -> (r: &str)
        ensures
            r@ == self@,
    {
        self.0.as_str()
    }

    /// The HTML text, owned.
    pub fn into_string(self) -> (r: String)
        ensures
            r@ == self@,
    {
        self.0
    }
}

impl Default for Markup {
    fn default() -> (r: Markup)
        ensures
            r@ == Seq::<char>::empty(),
    {
        Markup::new()
    }
}

} // verus!
