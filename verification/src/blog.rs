//! The index of the articles: the search bar, the tags, and one entry for
//! each article.

use crate::layout::{base_html, BaseHtml};
use crate::markup::{escaped, Markup};
use vstd::prelude::*;

verus! {

/// The effect script of a tag up to the name it looks for.
pub const TAG_EFFECT_HEAD: &'static str = r#"
                    if (hasValue($store.search.text, '"#;

/// The effect script of a tag after the name it looks for.
pub const TAG_EFFECT_TAIL: &'static str = r#"')) {
                        $el.classList.remove('bg-gray-400/10');
                        $el.classList.remove('dark:bg-gray-950/30');
                        $el.classList.add('bg-gray-800/10');
                        $el.classList.add('dark:bg-gray-600/30');
                    } else {
                        $el.classList.add('bg-gray-400/10');
                        $el.classList.add('dark:bg-gray-950/30');
                        $el.classList.remove('bg-gray-800/10');
                        $el.classList.remove('dark:bg-gray-600/30');
                    }
                "#;

/// The click script of a tag up to the name it looks for.
pub const TAG_CLICK_HEAD: &'static str = r#"if (!hasValue($store.search.text, '"#;

/// The click script of a tag up to the name it adds.
pub const TAG_CLICK_ADD: &'static str = r#"')) {
                        $store.search.update(addWord($store.search.text, '"#;

/// The click script of a tag up to the name it removes.
pub const TAG_CLICK_REMOVE: &'static str = r#"'))
                    } else {
                        $store.search.update(removeWord($store.search.text, '"#;

/// The end of the click script of a tag.
pub const TAG_CLICK_TAIL: &'static str = r#"'))
                    }"#;

/// The functions that search the entries, and the store that holds the search text.
pub const SEARCH_SCRIPT: &'static str = r#"
            function hasValue(searchIn, searchFor) {
              const searchForWords = searchFor.split(/[ ,]+/);
              for (const word of searchForWords) {
                if (searchIn.includes(word)) {
                  return true;
                }
              }
              return false;
            }

            function removeWord(string, word) {
              const parts = string.split(/(, | )/);
              const filteredParts = parts.filter(part => part !== word && part !== `, ${word}` && part !== ` ${word}`);
              const newString = filteredParts.join("");

              return newString.replace(/[, ]+/g, " ").trim().replace(/^[, ]+|[, ]+$/g, "");
            }

            function addWord(string, word) {
                const words = string.split(/[, ]+/);
                if (!words.includes(word)) {
                    words.push(word);
                }
                return words.join(" ").replace(/^[, ]+|[, ]+$/g, "");
            }

            document.addEventListener('alpine:init', () => {
                Alpine.store('search', {
                    text: '',

                    update(text) {
                        this.text = text
                    }
                })
            })
        "#;

/// The magnifying glass, drawn.
pub const SEARCH_ICON: &'static str = r#"
                                <svg xmlns="http://www.w3.org/2000/svg" viewBox="0 0 16 16" fill="currentColor" class="size-4">
                                  <path fill-rule="evenodd" d="M9.965 11.026a5 5 0 1 1 1.06-1.06l2.755 2.754a.75.75 0 1 1-1.06 1.06l-2.755-2.754ZM10.5 7a3.5 3.5 0 1 1-7 0 3.5 3.5 0 0 1 7 0Z" clip-rule="evenodd" />
                                </svg>
                            "#;

/// The field that holds the search text.
pub const SEARCH_INPUT: &'static str = r#"
                                <input style="-webkit-appearance: none; -webkit-border-radius:0px;" x-model="$store.search.text" type="search" class="search-input h-full grow !border-none !focus:ring-0 !outline-none relative !bg-transparent rounded-none" placeholder="Quick search..."/>
                            "#;

/// What decides whether the search shows an entry.
pub const BLOG_DATA: &'static str = r#"{
                    show_item(el){
                        return $store.search.text === '' || hasValue(el.textContent.toLowerCase(), $store.search.text.toLowerCase());
                    }
                }"#;

/// The script that shows a tag as chosen while the search text holds `name`.
pub open spec fn tag_effect(name: Seq<char>) -> Seq<char> {
    TAG_EFFECT_HEAD@ + name + TAG_EFFECT_TAIL@
}

/// The script that puts `name` into the search text, or takes it out where
/// it is there already.
pub open spec fn tag_click(name: Seq<char>) -> Seq<char> {
    TAG_CLICK_HEAD@ + name + TAG_CLICK_ADD@ + name + TAG_CLICK_REMOVE@ + name + TAG_CLICK_TAIL@
}

/// A tag as HTML: a button with the id `id` that shows `name`.
pub open spec fn tag_html(name: Seq<char>, id: Seq<char>) -> Seq<char> {
    "<div class=\"relative pr-0.5\"><button id=\""@ + escaped(id)
        + "\" type=\"button\" class=\"text-gray-500 text-xs leading-5 font-semibold bg-gray-400/10 rounded-full py-1 px-3 flex items-center dark:bg-gray-950/30 dark:text-gray-400 dark:shadow-highlight/4\" x-effect=\""@
        + escaped(tag_effect(name)) + "\" x-on:click=\""@ + escaped(tag_click(name)) + "\">"@
        + escaped(name) + "</button></div>"@
}

/// A tag that searches for `name` when it is pressed.
pub fn tag(name: &'static str, id: &'static str) -> (r: Markup)
    ensures
        r@ == tag_html(name@, id@),
{
    let mut effect = String::from_str(TAG_EFFECT_HEAD);
    effect.append(name);
    effect.append(TAG_EFFECT_TAIL);
    let mut click = String::from_str(TAG_CLICK_HEAD);
    click.append(name);
    click.append(TAG_CLICK_ADD);
    click.append(name);
    click.append(TAG_CLICK_REMOVE);
    click.append(name);
    click.append(TAG_CLICK_TAIL);
    let mut out = Markup::pre_escaped("<div class=\"relative pr-0.5\"><button id=\"");
    out.push_text(id);
    out.push_raw(
        "\" type=\"button\" class=\"text-gray-500 text-xs leading-5 font-semibold bg-gray-400/10 rounded-full py-1 px-3 flex items-center dark:bg-gray-950/30 dark:text-gray-400 dark:shadow-highlight/4\" x-effect=\"",
    );
    out.push_text(effect.as_str());
    out.push_raw("\" x-on:click=\"");
    out.push_text(click.as_str());
    out.push_raw("\">");
    out.push_text(name);
    out.push_raw("</button></div>");
    out
}

/// The tags of an article, each as its name and its id.
pub open spec fn tag_views(tags: Seq<(&'static str, &'static str)>) -> Seq<(Seq<char>, Seq<char>)> {
    tags.map_values(|tag: (&'static str, &'static str)| (tag.0@, tag.1@))
}

/// The tags as HTML, one after the other.
pub open spec fn tags_html(tags: Seq<(Seq<char>, Seq<char>)>) -> Seq<char>
    decreases tags.len(),
{
    if tags.len() == 0 {
        Seq::empty()
    } else {
        tags_html(tags.drop_last()) + tag_html(tags.last().0, tags.last().1)
    }
}

/// An article in a nutshell, as HTML: its date as the first of its tags,
/// its title and its description, both of them links to the article. The
/// description is HTML already.
pub open spec fn nutshell_html(
    href: Seq<char>,
    title: Seq<char>,
    date: Seq<char>,
    des: Seq<char>,
    tags: Seq<(Seq<char>, Seq<char>)>,
) -> Seq<char> {
    "<div class=\"flex flex-col\" x-show=\"show_item($el)\"><div class=\"flex\">"@ + tag_html(
        date,
        date,
    ) + tags_html(tags) + "</div><a href=\""@ + escaped(href)
        + "\"><div class=\"flex justify-between items-center flex-row-revert\"><h2 class=\"blog-title font-bold text-lg pb-2 hover:text-orange-500 text-left\">"@
        + escaped(title) + "</h2></div></a><a href=\""@ + escaped(href)
        + "\"><p class=\"text-justify\">"@ + des + "</p></a></div>"@
}

/// An article in a nutshell.
pub struct BlogEntryNutshell {
    pub href: &'static str,
    pub title: &'static str,
    pub date: &'static str,
    pub des: &'static str,
    pub tags: &'static [(&'static str, &'static str)],
}

impl BlogEntryNutshell {
    /// The entry as HTML.
    pub open spec fn html(self) -> Seq<char> {
        nutshell_html(self.href@, self.title@, self.date@, self.des@, tag_views(self.tags@))
    }

    /// Renders the entry.
    pub fn render(self) -> (r: Markup)
        ensures
            r@ == self.html(),
    {
        let ghost views = tag_views(self.tags@);
        let mut tags = Markup::new();
        let mut i: usize = 0;
        while i < self.tags.len()
            invariant
                i <= self.tags.len(),
                views == tag_views(self.tags@),
                tags@ == tags_html(views.take(i as int)),
            decreases self.tags.len() - i,
        {
            let (name, id) = self.tags[i];
            assert(views.take(i + 1).drop_last() =~= views.take(i as int));
            tags.push(&tag(name, id));
            i += 1;
        }
        assert(views.take(i as int) =~= views);
        let mut out = Markup::pre_escaped(
            "<div class=\"flex flex-col\" x-show=\"show_item($el)\"><div class=\"flex\">",
        );
        out.push(&tag(self.date, self.date));
        out.push(&tags);
        out.push_raw("</div><a href=\"");
        out.push_text(self.href);
        out.push_raw(
            "\"><div class=\"flex justify-between items-center flex-row-revert\"><h2 class=\"blog-title font-bold text-lg pb-2 hover:text-orange-500 text-left\">",
        );
        out.push_text(self.title);
        out.push_raw("</h2></div></a><a href=\"");
        out.push_text(self.href);
        out.push_raw("\"><p class=\"text-justify\">");
        out.push_raw(self.des);
        out.push_raw("</p></a></div>");
        out
    }
}

/// The search bar as HTML: the script that the tags and the entries search
/// with, and the field that holds the search text.
pub open spec fn search_bar_html() -> Seq<char> {
    "<script>"@ + SEARCH_SCRIPT@
        + "</script><div class=\"wrapper relative max-w-screen-md container text-left v-screen mx-auto px-10 text-black dark:text-gray-100\"><div class=\"lg:text-sm lg:leading-6 relative\"><div class=\"sticky pointer-events-none\"><div class=\"relative pointer-events-auto\"><div class=\"p-0 w-full flex items-center text-sm leading-6 text-gray-400 rounded-md ring-1 ring-gray-950/10 shadow-sm py-1.5 pl-2 pr-3 bg-white dark:bg-gray-950/30 md:dark:highlight-white/5 space-x-2 md:dark:hover:bg-gray-950\">"@
        + SEARCH_ICON@ + SEARCH_INPUT@ + "</div></div></div></div></div>"@
}

/// The search bar.
pub fn search_bar() -> (r: Markup)
    ensures
        r@ == search_bar_html(),
{
    let mut out = Markup::pre_escaped("<script>");
    out.push_raw(SEARCH_SCRIPT);
    out.push_raw(
        "</script><div class=\"wrapper relative max-w-screen-md container text-left v-screen mx-auto px-10 text-black dark:text-gray-100\"><div class=\"lg:text-sm lg:leading-6 relative\"><div class=\"sticky pointer-events-none\"><div class=\"relative pointer-events-auto\"><div class=\"p-0 w-full flex items-center text-sm leading-6 text-gray-400 rounded-md ring-1 ring-gray-950/10 shadow-sm py-1.5 pl-2 pr-3 bg-white dark:bg-gray-950/30 md:dark:highlight-white/5 space-x-2 md:dark:hover:bg-gray-950\">",
    );
    out.push_raw(SEARCH_ICON);
    out.push_raw(SEARCH_INPUT);
    out.push_raw("</div></div></div></div></div>");
    out
}

/// What the index says of the networking notes.
pub const NETWORKING_DES: &'static str =
    "Random notes from the book Network Programming with Rust by Abhishek Chanda, the Guide to Network Programming by Brian Hall, and other sources.";

/// What the index says of the parser combinator notes.
pub const PARSER_DES: &'static str =
    "Parser combinators are simple, powerful and flexible for building parsers. I explore how to do it with Rust";

/// What the index says of the article on type guidance.
pub const GUIDANCE_DES: &'static str =
    "In this writeup I learn about PhantomData and how to use it to design unbreakable APIs.";

/// What the index says of the data analysis exercise.
pub const COVID_DES: &'static str =
    "A naive examination of open data from México about COVID-19. The purpose, to strengthen my general analysis skills, practicing methods used to produce high-quality media.";

/// The entries of the index, the newest first.
pub open spec fn blog_entries_html() -> Seq<char> {
    nutshell_html(
        "./networking-notes/"@,
        "[WIP] Networking notes"@,
        "2023-06-11"@,
        NETWORKING_DES@,
        seq![("Rust"@, "rust"@), ("C"@, "c"@), ("WIP"@, "wip"@)],
    ) + nutshell_html(
        "./parser-comb-notes/"@,
        "[WIP] Parser combinator notes"@,
        "2023-03-16"@,
        PARSER_DES@,
        seq![("Rust"@, "rust"@), ("Parser"@, "parser"@), ("WIP"@, "wip"@)],
    ) + nutshell_html(
        "./type-guidance/"@,
        "Type guidance on APIs using PhantomData"@,
        "2022-08-06"@,
        GUIDANCE_DES@,
        seq![("Rust"@, "rust"@)],
    ) + nutshell_html(
        "./covid/"@,
        "Data analysis exercise: COVID19 in México"@,
        "2021-12-25"@,
        COVID_DES@,
        seq![("Mathematica"@, "mathematica"@)],
    )
}

/// The body of the index: its heading and its entries, inside the element
/// that decides which of them the search shows.
pub open spec fn blog_body_html() -> Seq<char> {
    "<div class=\"wrapper relative max-w-screen-md container text-left v-screen mx-auto pt-6 md:py-6 px-10 text-black dark:text-gray-100\" x-data=\""@
        + BLOG_DATA@
        + "\"><div class=\"flex flex-col space-y-10 md:space-y-0\"><h1>Blog</h1></div><div class=\"flex flex-col gap-5\">"@
        + blog_entries_html() + "</div></div>"@
}

/// The index of the articles as a page, with the search bar in its
/// navigation bar.
pub open spec fn blog_html() -> Seq<char> {
    base_html("Blog - AOx0"@, Seq::empty(), false, true, blog_body_html(), search_bar_html())
}

/// The entries of the index.
fn blog_entries() -> (r: Markup)
    ensures
        r@ == blog_entries_html(),
{
    let networking = BlogEntryNutshell {
        href: "./networking-notes/",
        title: "[WIP] Networking notes",
        tags: &[("Rust", "rust"), ("C", "c"), ("WIP", "wip")],
        date: "2023-06-11",
        des: NETWORKING_DES,
    };
    assert(tag_views(networking.tags@) =~= seq![("Rust"@, "rust"@), ("C"@, "c"@), ("WIP"@, "wip"@)]);
    let parser = BlogEntryNutshell {
        href: "./parser-comb-notes/",
        title: "[WIP] Parser combinator notes",
        tags: &[("Rust", "rust"), ("Parser", "parser"), ("WIP", "wip")],
        date: "2023-03-16",
        des: PARSER_DES,
    };
    assert(tag_views(parser.tags@) =~= seq![
        ("Rust"@, "rust"@),
        ("Parser"@, "parser"@),
        ("WIP"@, "wip"@),
    ]);
    let guidance = BlogEntryNutshell {
        href: "./type-guidance/",
        title: "Type guidance on APIs using PhantomData",
        tags: &[("Rust", "rust")],
        date: "2022-08-06",
        des: GUIDANCE_DES,
    };
    assert(tag_views(guidance.tags@) =~= seq![("Rust"@, "rust"@)]);
    let covid = BlogEntryNutshell {
        href: "./covid/",
        title: "Data analysis exercise: COVID19 in México",
        tags: &[("Mathematica", "mathematica")],
        date: "2021-12-25",
        des: COVID_DES,
    };
    assert(tag_views(covid.tags@) =~= seq![("Mathematica"@, "mathematica"@)]);
    let mut out = networking.render();
    out.push(&parser.render());
    out.push(&guidance.render());
    out.push(&covid.render());
    out
}

/// The index of the articles.
pub fn blog() -> (r: Markup)
    ensures
        r@ == blog_html(),
{
    let mut body = Markup::pre_escaped(
        "<div class=\"wrapper relative max-w-screen-md container text-left v-screen mx-auto pt-6 md:py-6 px-10 text-black dark:text-gray-100\" x-data=\"",
    );
    body.push_raw(BLOG_DATA);
    body.push_raw(
        "\"><div class=\"flex flex-col space-y-10 md:space-y-0\"><h1>Blog</h1></div><div class=\"flex flex-col gap-5\">",
    );
    body.push(&blog_entries());
    body.push_raw("</div></div>");
    let page = BaseHtml {
        title: "Blog - AOx0",
        alpine: true,
        children: body,
        nav_bar_middle: search_bar(),
        ..Default::default()
    };
    page.render()
}

} // verus!
