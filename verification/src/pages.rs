//! The pages of the site: the home page, the contact page and the page
//! that an article stands in, with the small elements they are made of.

use crate::layout::{base_html, BaseHtml};
use crate::markdown::{assembled, rendered, Document};
use crate::markup::{escaped, Markup};
use crate::text::{ascii_upper, chars_of, replace_all, replaced, string_of, to_ascii_upper};
use vstd::prelude::*;

verus! {

/// What the home page says.
pub const WELCOME_TEXT: &'static str = r#"
                    Hi,<br><br>I'm Alejandro Osornio, an enthusiastic programmer who really enjoys compiled
                    languages, playing around with interpreted ones, and creating side projects of all kinds for
                    fun.<br><br>I am interested in Cyber-security, computer science, math, and Backend, enjoy writing
                    Frontend, and like writing CLI tools to make my day-to-day easier.<br><br>Currently, I'm studying
                    Data Intelligence and Cyber-security at Panamerican University.<br><br>This web page is my blog,
                    portfolio, and how to contact. Feel free to explore around and to contact me.
                "#;

/// The classes of the body of the contact page.
pub const CONTACT_CLASS: &'static str = r#"max-w-screen-md relative container text-left justify-left md:text-left
            v-screen mx-auto pt-6 md:py-6 px-10 text-black dark:text-gray-100"#;

/// A link as HTML: bold, with `more` as further classes.
pub open spec fn link_html(more: Seq<char>, href: Seq<char>, children: Seq<char>) -> Seq<char> {
    "<a class=\""@ + escaped("font-bold hover:text-orange-500 "@ + more) + "\" href=\""@ + escaped(
        href,
    ) + "\">"@ + children + "</a>"@
}

/// A link to `href` around `children`.
pub fn link(more: &'static str, href: &'static str, children: Markup) -> (r: Markup)
    ensures
        r@ == link_html(more@, href@, children@),
{
    let mut class = String::from_str("font-bold hover:text-orange-500 ");
    class.append(more);
    let mut out = Markup::pre_escaped("<a class=\"");
    out.push_text(class.as_str());
    out.push_raw("\" href=\"");
    out.push_text(href);
    out.push_raw("\">");
    out.push(&children);
    out.push_raw("</a>");
    out
}

/// A caption as HTML: a small centred line and a line break.
pub open spec fn caption_html(msg: Seq<char>) -> Seq<char> {
    "<p class=\"text-sm font-light block text-center pt-1\">"@ + escaped(msg) + "</p><br></br>"@
}

/// The caption `msg`.
pub fn caption(msg: &'static str) -> (r: Markup)
    ensures
        r@ == caption_html(msg@),
{
    let mut out = Markup::pre_escaped("<p class=\"text-sm font-light block text-center pt-1\">");
    out.push_text(msg);
    out.push_raw("</p><br></br>");
    out
}

/// An image as HTML: the picture on a white ground, and its caption.
pub open spec fn image_html(src: Seq<char>, cap: Seq<char>) -> Seq<char> {
    "<div style=\"border-radius: 3pt;\" class=\"bg-white\"><img class=\"p-3\" src=\""@ + escaped(
        src,
    ) + "\"></img></div>"@ + caption_html(cap)
}

/// The image at `src` with the caption `cap`.
pub fn image(src: &'static str, cap: &'static str) -> (r: Markup)
    ensures
        r@ == image_html(src@, cap@),
{
    let mut out = Markup::pre_escaped(
        "<div style=\"border-radius: 3pt;\" class=\"bg-white\"><img class=\"p-3\" src=\"",
    );
    out.push_text(src);
    out.push_raw("\"></img></div>");
    out.push(&caption(cap));
    out
}

/// A justified paragraph as HTML.
pub open spec fn p_html(children: Seq<char>) -> Seq<char> {
    "<p class=\"text-justify\">"@ + children + "</p>"@
}

/// A justified paragraph around `children`.
pub fn p(children: Markup) -> (r: Markup)
    ensures
        r@ == p_html(children@),
{
    let mut out = Markup::pre_escaped("<p class=\"text-justify\">");
    out.push(&children);
    out.push_raw("</p>");
    out
}

/// The words of welcome as HTML.
pub open spec fn welcome_html() -> Seq<char> {
    "<div class=\"max-w-screen-md relative container text-center md:text-left v-screen mx-auto pt-6 md:py-6 px-10 text-black dark:text-gray-100\"><h1 class=\"text-4xl md:text-5xl font-bold py-10 \">About Me</h1><p class=\"text-justify\">"@
        + WELCOME_TEXT@ + "</p></div>"@
}

/// The words of welcome.
pub fn welcome() -> (r: Markup)
    ensures
        r@ == welcome_html(),
{
    let mut out = Markup::pre_escaped(
        "<div class=\"max-w-screen-md relative container text-center md:text-left v-screen mx-auto pt-6 md:py-6 px-10 text-black dark:text-gray-100\"><h1 class=\"text-4xl md:text-5xl font-bold py-10 \">About Me</h1><p class=\"text-justify\">",
    );
    out.push_raw(WELCOME_TEXT);
    out.push_raw("</p></div>");
    out
}

/// The home page as HTML.
pub open spec fn home_html() -> Seq<char> {
    base_html("AOx0"@, Seq::empty(), false, false, welcome_html(), Seq::empty())
}

/// The home page.
pub fn home() -> (r: Markup)
    ensures
        r@ == home_html(),
{
    let page = BaseHtml { title: "AOx0", children: welcome(), ..Default::default() };
    page.render()
}

/// A way to reach the author as HTML: an item of a list that names the
/// place and links to it.
pub open spec fn contact_item_html(
    title: Seq<char>,
    href: Seq<char>,
    children: Seq<char>,
) -> Seq<char> {
    "<li>"@ + escaped(title + ": "@) + link_html(Seq::empty(), href, children) + "</li>"@
}

/// The place `title`, reached at `href`.
pub fn contact_item(title: &'static str, href: &'static str, children: Markup) -> (r: Markup)
    ensures
        r@ == contact_item_html(title@, href@, children@),
{
    proof {
        reveal_strlit("");
    }
    let mut label = String::from_str(title);
    label.append(": ");
    let mut out = Markup::pre_escaped("<li>");
    out.push_text(label.as_str());
    out.push(&link("", href, children));
    out.push_raw("</li>");
    out
}

/// The places where the author is found.
pub open spec fn contact_items_html() -> Seq<char> {
    contact_item_html("Email"@, "mailto:aoxo.contact@gmail.com"@, "aoxo.contact@gmail.com"@)
        + contact_item_html("Github"@, "https://github.com/AOx0"@, "@AOx0"@) + contact_item_html(
        "Twitter"@,
        "https://twitter.com/AlecsOsornio"@,
        "@AlecsOsornio"@,
    ) + contact_item_html("LinkedIn"@, "https://www.linkedin.com/in/aox0"@, "Alejandro Osornio"@)
        + contact_item_html("Telegram"@, "https://t.me/alecz"@, "@Alecz"@) + contact_item_html(
        "Instagram"@,
        "https://www.instagram.com/ale.osornio/"@,
        "ale.osornio"@,
    )
}

/// The body of the contact page.
pub open spec fn contact_body_html() -> Seq<char> {
    "<div class=\""@ + CONTACT_CLASS@
        + "\"><h1>Where to find me</h1><p>Feel free to reach me out in any of the following places:</p><ul class=\"list-disc list-inside pt-10\">"@
        + contact_items_html()
        + "</ul><p class=\"text-sm pt-5\">* I'm most active on Telegram, though.</p></div>"@
}

/// The contact page as HTML.
pub open spec fn contact_html() -> Seq<char> {
    base_html("Contact - AOx0"@, Seq::empty(), false, false, contact_body_html(), Seq::empty())
}

/// The places where the author is found.
fn contact_items() -> (r: Markup)
    ensures
        r@ == contact_items_html(),
{
    let mut out = contact_item(
        "Email",
        "mailto:aoxo.contact@gmail.com",
        Markup::pre_escaped("aoxo.contact@gmail.com"),
    );
    out.push(&contact_item("Github", "https://github.com/AOx0", Markup::pre_escaped("@AOx0")));
    out.push(
        &contact_item(
            "Twitter",
            "https://twitter.com/AlecsOsornio",
            Markup::pre_escaped("@AlecsOsornio"),
        ),
    );
    out.push(
        &contact_item(
            "LinkedIn",
            "https://www.linkedin.com/in/aox0",
            Markup::pre_escaped("Alejandro Osornio"),
        ),
    );
    out.push(&contact_item("Telegram", "https://t.me/alecz", Markup::pre_escaped("@Alecz")));
    out.push(
        &contact_item(
            "Instagram",
            "https://www.instagram.com/ale.osornio/",
            Markup::pre_escaped("ale.osornio"),
        ),
    );
    out
}

/// The contact page.
pub fn contact() -> (r: Markup)
    ensures
        r@ == contact_html(),
{
    let mut body = Markup::pre_escaped("<div class=\"");
    body.push_raw(CONTACT_CLASS);
    body.push_raw(
        "\"><h1>Where to find me</h1><p>Feel free to reach me out in any of the following places:</p><ul class=\"list-disc list-inside pt-10\">",
    );
    body.push(&contact_items());
    body.push_raw("</ul><p class=\"text-sm pt-5\">* I'm most active on Telegram, though.</p></div>");
    let page = BaseHtml { title: "Contact - AOx0", children: body, ..Default::default() };
    page.render()
}

/// Whether an article's name can head its page: it is not empty and begins
/// with an ASCII character.
pub open spec fn has_title(name: Seq<char>) -> bool {
    name.len() > 0 && (name[0] as u32) < 128
}

/// The title of the page of the article `name`: the name with its first
/// letter in upper case and a space for each hyphen after it, and the name
/// of the site.
pub open spec fn article_title(name: Seq<char>) -> Seq<char> {
    seq![ascii_upper(name[0])] + replaced(name.skip(1), "-"@, " "@) + " - AOx0"@
}

/// Whether `name` can head a page.
pub fn can_title(name: &str) -> (r: bool)
    ensures
        r == has_title(name@),
{
    let chars = chars_of(name);
    chars.len() > 0 && (chars[0] as u32) < 128
}

/// The title of the page of the article `name`.
pub fn entry_title(name: &str) -> (r: String)
    requires
        has_title(name@),
    ensures
        r@ == article_title(name@),
{
    let chars = chars_of(name);
    let rest = string_of(&chars, 1, chars.len());
    let spaced = replace_all(rest.as_str(), "-", " ");
    let mut title = String::new();
    title.push(to_ascii_upper(chars[0]));
    title.append(spaced.as_str());
    title.append(" - AOx0");
    title
}

/// Where the text of the article `name` lies under the directory `root`.
pub open spec fn article_path(root: Seq<char>, name: Seq<char>) -> Seq<char> {
    root + "/blog/"@ + name + ".md"@
}

/// The path of the text of the article `name`.
pub fn entry_path(root: &str, name: &str) -> (r: String)
    ensures
        r@ == article_path(root@, name@),
{
    let mut path = String::from_str(root);
    path.append("/blog/");
    path.append(name);
    path.append(".md");
    path
}

/// The page of an article as HTML: `body` in a column, with KaTeX loaded.
pub open spec fn article_html(title: Seq<char>, body: Seq<char>) -> Seq<char> {
    base_html(
        title,
        Seq::empty(),
        true,
        false,
        "<div class=\"max-w-screen-md relative container text-justify md:text-left v-screen mx-auto pt-6 md:py-6 px-10 text-black dark:text-gray-100\">"@
            + body + "</div>"@,
        Seq::empty(),
    )
}

/// The page titled `title` around the HTML `body` of an article.
pub fn article(title: &str, body: &str) -> (r: Markup)
    ensures
        r@ == article_html(title@, body@),
{
    let mut column = Markup::pre_escaped(
        "<div class=\"max-w-screen-md relative container text-justify md:text-left v-screen mx-auto pt-6 md:py-6 px-10 text-black dark:text-gray-100\">",
    );
    column.push_raw(body);
    column.push_raw("</div>");
    let page = BaseHtml { title, katex: true, blog: true, children: column, ..Default::default() };
    page.render()
}

/// The page of the article `name`: the document with what the highlighter
/// made of each of its requests in place, under the article's title.
/// `outputs` must answer the requests one for one; otherwise there is no
/// page.
pub fn markdown(document: Document<'_>, outputs: &Vec<String>, name: &str) -> (r: Option<Markup>)
    requires
        has_title(name@),
    ensures
        match r {
            Some(page) => {
                &&& outputs.len() == crate::highlight::requests_of(document.steps()).len()
                &&& page@ == article_html(
                    article_title(name@),
                    rendered(assembled(document.events(), document.steps(), outputs.deep_view())),
                )
            },
            None => outputs.len() != crate::highlight::requests_of(document.steps()).len(),
        },
{
    match document.render(outputs) {
        Some(body) => {
            let title = entry_title(name);
            Some(article(title.as_str(), body.as_str()))
        },
        None => None,
    }
}

} // verus!
