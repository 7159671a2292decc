//! The frame that every page stands in: the head, the navigation bar with
//! its menu, and the footer.

use crate::markup::{escaped, Markup};
use vstd::prelude::*;

verus! {

/// The footer of every page.
pub const FOOTER: &'static str =
    "<footer id=\"footer\" class=\"text-black dark:text-gray-100\"><div class=\"container flex flex-col-reverse justify-between px-6 py-10 mx-auto space-y-8 md:space-y-0\"><div class=\"text-xs block text-center\">Made by AOx0 with <a target=\"_blank\" rel=\"noopener noreferrer\" href=\"https://github.com/gbj/leptos\" class=\"underline\">Maud</a>, <a target=\"_blank\" rel=\"noopener noreferrer\" href=\"https://github.com/alpinejs/alpine\" class=\"underline\">AlpineJS</a> &amp; <a target=\"_blank\" rel=\"noopener noreferrer\" href=\"https://github.com/tailwindlabs/tailwindcss\" class=\"underline\">TailwindCSS</a>. </div></div></footer>";

/// The moon, drawn.
pub const MOON_ICON: &'static str = r#"
            <svg class="hidden dark:block size-6" xmlns="http://www.w3.org/2000/svg" viewBox="0 0 24 24" fill="currentColor">
              <path fill-rule="evenodd" d="M9.528 1.718a.75.75 0 0 1 .162.819A8.97 8.97 0 0 0 9 6a9 9 0 0 0 9 9 8.97 8.97 0 0 0 3.463-.69.75.75 0 0 1 .981.98 10.503 10.503 0 0 1-9.694 6.46c-5.799 0-10.5-4.7-10.5-10.5 0-4.368 2.667-8.112 6.46-9.694a.75.75 0 0 1 .818.162Z" clip-rule="evenodd" />
            </svg>
        "#;

/// The sun, drawn.
pub const SUN_ICON: &'static str = r#"
            <svg class="block dark:hidden size-6" xmlns="http://www.w3.org/2000/svg" viewBox="0 0 24 24" fill="currentColor">
              <path d="M12 2.25a.75.75 0 0 1 .75.75v2.25a.75.75 0 0 1-1.5 0V3a.75.75 0 0 1 .75-.75ZM7.5 12a4.5 4.5 0 1 1 9 0 4.5 4.5 0 0 1-9 0ZM18.894 6.166a.75.75 0 0 0-1.06-1.06l-1.591 1.59a.75.75 0 1 0 1.06 1.061l1.591-1.59ZM21.75 12a.75.75 0 0 1-.75.75h-2.25a.75.75 0 0 1 0-1.5H21a.75.75 0 0 1 .75.75ZM17.834 18.894a.75.75 0 0 0 1.06-1.06l-1.59-1.591a.75.75 0 1 0-1.061 1.06l1.59 1.591ZM12 18a.75.75 0 0 1 .75.75V21a.75.75 0 0 1-1.5 0v-2.25A.75.75 0 0 1 12 18ZM7.758 17.303a.75.75 0 0 0-1.061-1.06l-1.591 1.59a.75.75 0 0 0 1.06 1.061l1.591-1.59ZM6 12a.75.75 0 0 1-.75.75H3a.75.75 0 0 1 0-1.5h2.25A.75.75 0 0 1 6 12ZM6.697 7.757a.75.75 0 0 0 1.06-1.06l-1.59-1.591a.75.75 0 0 0-1.061 1.06l1.59 1.591Z" />
            </svg>
        "#;

/// The LinkedIn mark, drawn.
pub const LINKED_IN_ICON: &'static str = r#"
            <svg view_box="0 0 24 24" fill="currentColor" width="24" height="24">
                <path
                    d="M19 0h-14c-2.761 0-5 2.239-5 5v14c0 2.761 2.239 5 5 5h14c2.762 0 5-2.239 5-5v-14c0-2.761-2.238-5-5-5zm-11 19h-3v-11h3v11zm-1.5-12.268c-.966 0-1.75-.79-1.75-1.764s.784-1.764 1.75-1.764 1.75.79 1.75 1.764-.783 1.764-1.75 1.764zm13.5 12.268h-3v-5.604c0-3.368-4-3.113-4 0v5.604h-3v-11h3v1.765c1.396-2.586 7-2.777 7 2.476v6.759z"
                />
            </svg>
        "#;

/// The GitHub mark, drawn.
pub const GITHUB_ICON: &'static str = r#"
            <svg fill="currentColor" viewBox="0 0 16 16" width="24" height="24">
                <path d="M8 0C3.58 0 0 3.58 0 8c0 3.54 2.29 6.53 5.47 7.59.4.07.55-.17.55-.38 0-.19-.01-.82-.01-1.49-2.01.37-2.53-.49-2.69-.94-.09-.23-.48-.94-.82-1.13-.28-.15-.68-.52-.01-.53.63-.01 1.08.58 1.23.82.72 1.21 1.87.87 2.33.66.07-.52.28-.87.51-1.07-1.78-.2-3.64-.89-3.64-3.95 0-.87.31-1.59.82-2.15-.08-.2-.36-1.02.08-2.12 0 0 .67-.21 2.2.82.64-.18 1.32-.27 2-.27.68 0 1.36.09 2 .27 1.53-1.04 2.2-.82 2.2-.82.44 1.1.16 1.92.08 2.12.51.56.82 1.27.82 2.15 0 3.07-1.87 3.75-3.65 3.95.29.25.54.73.54 1.48 0 1.07-.01 1.93-.01 2.2 0 .21.15.46.55.38A8.013 8.013 0 0016 8c0-4.42-3.58-8-8-8z" fill-rule="evenodd"/>
            </svg>
        "#;

/// What the theme button does when it is pressed.
pub const THEME_TOGGLE: &'static str = r#"
                const html = document.getElementsByTagName('html')[0];
                if(html.classList.contains('dark')) {
                    document.getElementById('t_color').content = 'black'
                    html.classList.remove('dark');
                    localStorage.theme = 'light'
                } else {
                    document.getElementById('t_color').content = 'rgb(31 41 55 / var(--tw-bg-opacity))'
                    html.classList.add('dark');
                    localStorage.theme = 'dark'
                }
            "#;

/// The script that sets the theme when a page loads.
pub const THEME_SCRIPT: &'static str = r#"
                        const html = document.getElementsByTagName('html')[0];
                        if (localStorage.theme === 'dark' || !('theme' in localStorage)) {
                            document.getElementById('t_color').content = 'rgb(31 41 55 / var(--tw-bg-opacity))'
                            html.classList.add('dark');
                            localStorage.theme = 'dark'
                        } else {
                            document.getElementById('t_color').content = 'black'
                            html.classList.remove('dark');
                            localStorage.theme = 'light'
                        }
                    "#;

/// The script that has KaTeX render the formulas of a page.
pub const KATEX_SCRIPT: &'static str = r#"
                            document.addEventListener('DOMContentLoaded', function() {
                                renderMathInElement(document.body, {
                                    delimiters: [
                                        {left: '$$', right: '$$', display: true},
                                        {left: '$', right: '$', display: false}
                                    ],
                                    throwOnError : false
                                });
                            });
                        "#;

/// The colour that a menu entry takes under the pointer unless it names one.
pub const DEFAULT_HOVER: &'static str = "text-orange-500";

/// The script element that loads Alpine.
pub const ALPINE: &'static str =
    "<script src=\"https://unpkg.com/alpinejs@3.x.x/dist/cdn.min.js\" defer init></script>";

/// The elements that load KaTeX, up to the script that starts it.
pub const KATEX: &'static str =
    "<link rel=\"stylesheet\" href=\"https://cdn.jsdelivr.net/npm/katex@0.16.0/dist/katex.min.css\" integrity=\"sha384-Xi8rHCmBmhbuyyhbI88391ZKP2dmfnOl4rT9ZfRI7mLTdk1wblIUnrIq35nqwEvC\" crossorigin=\"anonymous\"></link><script defer src=\"https://cdn.jsdelivr.net/npm/katex@0.16.0/dist/katex.min.js\" integrity=\"sha384-X/XCfMm41VSsqRNQgDerQczD69XqmjOOOwYQvr/uuC+j4OPoNhVgjdGFwhvN02Ja\" crossorigin=\"anonymous\"></script><script defer src=\"https://cdn.jsdelivr.net/npm/katex@0.16.0/dist/contrib/auto-render.min.js\" integrity=\"sha384-+XBljXPPiv+OzfbB3cVmLHf4hdUFHlWNZN5spNQ7rmHTXpd7WvJum6fIACpNNfIR\" crossorigin=\"anonymous\"></script>";

/// The head of a page up to its title.
pub const HEAD_OPEN: &'static str =
    "<head><meta id=\"t_color\" name=\"theme-color\" content=\"rgb(31 41 55 / var(--tw-bg-opacity))\"></meta><meta name=\"viewport\" content=\"width=device-width, initial-scale=1.0\"></meta><meta charset=\"UTF-8\"></meta><title>";

/// The style sheet and the fonts, which follow the title.
pub const HEAD_STYLES: &'static str =
    "</title><link rel=\"stylesheet\" href=\"/static/styles.css\"></link><link href=\"/static/fonts/inconsolata-semibold.woff2\" rel=\"woff2-font\"><link href=\"/static/fonts/inconsolata.woff2\" rel=\"woff2-font\">";

/// The style sheet of the articles.
pub const BLOG_STYLES: &'static str = "<link rel=\"stylesheet\" href=\"/static/blog_styles.css\"></link>";

/// The footer.
pub fn footer() -> (r: Markup)
    ensures
        r@ == FOOTER@,
{
    Markup::pre_escaped(FOOTER)
}

/// The icon shown while the dark theme is on.
pub fn moon_icon() -> (r: Markup)
    ensures
        r@ == MOON_ICON@,
{
    Markup::pre_escaped(MOON_ICON)
}

/// The icon shown while the light theme is on.
pub fn sun_icon() -> (r: Markup)
    ensures
        r@ == SUN_ICON@,
{
    Markup::pre_escaped(SUN_ICON)
}

/// The LinkedIn mark.
pub fn linked_in() -> (r: Markup)
    ensures
        r@ == LINKED_IN_ICON@,
{
    Markup::pre_escaped(LINKED_IN_ICON)
}

/// The GitHub mark.
pub fn github() -> (r: Markup)
    ensures
        r@ == GITHUB_ICON@,
{
    Markup::pre_escaped(GITHUB_ICON)
}

/// The colour that a menu entry takes under the pointer: the one it names,
/// or the default where it names none.
pub open spec fn hover_color(color: Seq<char>) -> Seq<char> {
    if color.len() == 0 {
        DEFAULT_HOVER@
    } else {
        color
    }
}

/// A menu entry as HTML: a link around `children`, whose class gives the
/// hover colour and then `more`. An entry that leads off the site
/// (`nopage`) opens in a new tab.
pub open spec fn menu_item_html(
    href: Seq<char>,
    more: Seq<char>,
    nopage: bool,
    color: Seq<char>,
    children: Seq<char>,
) -> Seq<char> {
    let class = "hover:"@ + hover_color(color) + " "@ + more;
    if nopage {
        "<a target=\"_blank\" rel=\"noopener noreferrer\" class=\""@ + escaped(class)
            + "\" href=\""@ + escaped(href) + "\">"@ + children + "</a>"@
    } else {
        "<a class=\""@ + escaped(class) + "\" href=\""@ + escaped(href) + "\">"@ + children
            + "</a>"@
    }
}

/// An entry of the menu.
#[derive(Debug)]
pub struct MenuItem {
    pub href: &'static str,
    pub more: &'static str,
    pub nopage: bool,
    pub color: &'static str,
    pub children: Markup,
}

impl Default for MenuItem {
    fn default() -> (r: MenuItem)
        ensures
            r.href@ == Seq::<char>::empty(),
            r.more@ == Seq::<char>::empty(),
            !r.nopage,
            r.color@ == Seq::<char>::empty(),
            r.children@ == Seq::<char>::empty(),
    {
        proof {
            reveal_strlit("");
        }
        MenuItem { href: "", more: "", nopage: false, color: "", children: Markup::new() }
    }
}

impl MenuItem {
    /// The entry as HTML.
    pub open spec fn html(self) -> Seq<char> {
        menu_item_html(self.href@, self.more@, self.nopage, self.color@, self.children@)
    }

    /// Renders the entry.
    pub fn render(self) -> (r: Markup)
        ensures
            r@ == self.html(),
    {
        let color = if self.color.is_empty() {
            DEFAULT_HOVER
        } else {
            self.color
        };
        let mut class = String::from_str("hover:");
        class.append(color);
        class.append(" ");
        class.append(self.more);
        let mut out = if self.nopage {
            Markup::pre_escaped("<a target=\"_blank\" rel=\"noopener noreferrer\" class=\"")
        } else {
            Markup::pre_escaped("<a class=\"")
        };
        out.push_text(class.as_str());
        out.push_raw("\" href=\"");
        out.push_text(self.href);
        out.push_raw("\">");
        out.push(&self.children);
        out.push_raw("</a>");
        out
    }
}

/// The entries that lead to the pages of the site.
pub open spec fn items_collection_html() -> Seq<char> {
    menu_item_html("/"@, Seq::empty(), false, Seq::empty(), "Home"@) + menu_item_html(
        "/blog/"@,
        Seq::empty(),
        false,
        Seq::empty(),
        "Blog"@,
    ) + menu_item_html("/contact/"@, Seq::empty(), false, Seq::empty(), "Contact"@)
}

/// The entries that lead off the site.
pub open spec fn icons_collection_html() -> Seq<char> {
    menu_item_html(
        "https://www.linkedin.com/in/aox0/"@,
        Seq::empty(),
        true,
        Seq::empty(),
        LINKED_IN_ICON@,
    ) + menu_item_html(
        "https://github.com/aox0/"@,
        Seq::empty(),
        true,
        Seq::empty(),
        GITHUB_ICON@,
    )
}

/// The name of the site, which leads home.
pub open spec fn aox0_html() -> Seq<char> {
    menu_item_html(
        "/"@,
        Seq::empty(),
        false,
        Seq::empty(),
        "<h1 class=\"text-4xl font-bold\">AOx0</h1>"@,
    )
}

/// The menu: both collections and the button that switches the theme.
pub open spec fn menu_html() -> Seq<char> {
    items_collection_html() + icons_collection_html()
        + "<button class=\"hover:text-orange-500\" onclick=\""@ + THEME_TOGGLE@ + "\">"@
        + MOON_ICON@ + SUN_ICON@ + "</button>"@
}

/// The navigation bar: the name of the site, `children` in the middle, and
/// the menu, once for wide and once for narrow screens.
pub open spec fn nav_bar_html(children: Seq<char>) -> Seq<char> {
    "<nav class=\"relative container v-screen mx-auto pt-6 md:py-6 px-10 text-black dark:text-gray-100\"><div class=\"flex items-center justify-between\"><div>"@
        + aox0_html() + "</div>"@ + children + "<div class=\"hidden md:flex space-x-6\">"@
        + menu_html()
        + "</div></div><div class=\"flex flex-wrap md:hidden justify-center space-x-5 md:space-x-6 space-y-2 container v-screen mx-auto py-6 px-10 text-black dark:text-gray-100\"><p> </p>"@
        + menu_html() + "</div></nav>"@
}

/// An entry of the menu that stays on the site and has the default colour.
fn page_item(href: &'static str, children: Markup) -> (r: Markup)
    ensures
        r@ == menu_item_html(href@, Seq::empty(), false, Seq::empty(), children@),
{
    let item = MenuItem { href, children, ..Default::default() };
    item.render()
}

/// An entry of the menu that leads off the site and has the default colour.
fn outside_item(href: &'static str, children: Markup) -> (r: Markup)
    ensures
        r@ == menu_item_html(href@, Seq::empty(), true, Seq::empty(), children@),
{
    let item = MenuItem { href, nopage: true, children, ..Default::default() };
    item.render()
}

/// The entries that lead to the pages of the site.
pub fn items_collection() -> (r: Markup)
    ensures
        r@ == items_collection_html(),
{
    let mut out = page_item("/", Markup::pre_escaped("Home"));
    out.push(&page_item("/blog/", Markup::pre_escaped("Blog")));
    out.push(&page_item("/contact/", Markup::pre_escaped("Contact")));
    out
}

/// The entries that lead off the site.
pub fn icons_collection() -> (r: Markup)
    ensures
        r@ == icons_collection_html(),
{
    let mut out = outside_item("https://www.linkedin.com/in/aox0/", linked_in());
    out.push(&outside_item("https://github.com/aox0/", github()));
    out
}

/// The name of the site, which leads home.
pub fn aox0() -> (r: Markup)
    ensures
        r@ == aox0_html(),
{
    page_item("/", Markup::pre_escaped("<h1 class=\"text-4xl font-bold\">AOx0</h1>"))
}

/// The menu.
pub fn menu() -> (r: Markup)
    ensures
        r@ == menu_html(),
{
    let mut out = items_collection();
    out.push(&icons_collection());
    out.push_raw("<button class=\"hover:text-orange-500\" onclick=\"");
    out.push_raw(THEME_TOGGLE);
    out.push_raw("\">");
    out.push(&moon_icon());
    out.push(&sun_icon());
    out.push_raw("</button>");
    out
}

/// The navigation bar around `children`.
pub fn nav_bar(children: Markup) -> (r: Markup)
    ensures
        r@ == nav_bar_html(children@),
{
    let mut out = Markup::pre_escaped(
        "<nav class=\"relative container v-screen mx-auto pt-6 md:py-6 px-10 text-black dark:text-gray-100\"><div class=\"flex items-center justify-between\"><div>",
    );
    out.push(&aox0());
    out.push_raw("</div>");
    out.push(&children);
    out.push_raw("<div class=\"hidden md:flex space-x-6\">");
    out.push(&menu());
    out.push_raw(
        "</div></div><div class=\"flex flex-wrap md:hidden justify-center space-x-5 md:space-x-6 space-y-2 container v-screen mx-auto py-6 px-10 text-black dark:text-gray-100\"><p> </p>",
    );
    out.push(&menu());
    out.push_raw("</div></nav>");
    out
}

/// `part` where `wanted`, nothing otherwise.
pub open spec fn optional(wanted: bool, part: Seq<char>) -> Seq<char> {
    if wanted {
        part
    } else {
        Seq::empty()
    }
}

/// The head of a page: its title, the style sheets, Alpine where
/// `alpine` asks for it, the script that sets the theme, and KaTeX where
/// `katex` asks for it.
pub open spec fn head_html(title: Seq<char>, alpine: bool, katex: bool) -> Seq<char> {
    HEAD_OPEN@ + escaped(title) + HEAD_STYLES@ + optional(alpine, ALPINE@) + BLOG_STYLES@
        + "<script>"@ + THEME_SCRIPT@ + "</script>"@ + optional(
        katex,
        KATEX@ + "<script>"@ + KATEX_SCRIPT@ + "</script>"@,
    ) + "</head>"@
}

/// A whole page: the head, the navigation bar around `nav_bar_middle`, the
/// body around `children`, and the footer. Alpine is loaded where the page
/// asks for it or its body carries data for it.
pub open spec fn base_html(
    title: Seq<char>,
    x_data: Seq<char>,
    katex: bool,
    alpine: bool,
    children: Seq<char>,
    nav_bar_middle: Seq<char>,
) -> Seq<char> {
    "<!DOCTYPE html><html class=\"dark\">"@ + head_html(title, alpine || x_data.len() > 0, katex)
        + nav_bar_html(nav_bar_middle) + "<body x-data=\""@ + escaped(x_data)
        + "\" class=\"flex flex-col h-screen bg-white dark:bg-gray-900 text-black dark:text-gray-100\"><div class=\"flex-auto\">"@
        + children + "</div></body>"@ + FOOTER@ + "</html>"@
}

/// The head of a page.
fn head(title: &str, alpine: bool, katex: bool) -> (r: Markup)
    ensures
        r@ == head_html(title@, alpine, katex),
{
    let mut out = Markup::pre_escaped(HEAD_OPEN);
    out.push_text(title);
    out.push_raw(HEAD_STYLES);
    if alpine {
        out.push_raw(ALPINE);
    }
    out.push_raw(BLOG_STYLES);
    out.push_raw("<script>");
    out.push_raw(THEME_SCRIPT);
    out.push_raw("</script>");
    if katex {
        let mut math = Markup::pre_escaped(KATEX);
        math.push_raw("<script>");
        math.push_raw(KATEX_SCRIPT);
        math.push_raw("</script>");
        out.push(&math);
    }
    out.push_raw("</head>");
    out
}

/// What a page is made of.
#[derive(Debug)]
pub struct BaseHtml<'src> {
    pub title: &'src str,
    pub x_data: &'src str,
    pub katex: bool,
    pub alpine: bool,
    pub blog: bool,
    pub children: Markup,
    pub nav_bar_middle: Markup,
}

impl<'src> Default for BaseHtml<'src> {
    fn default() -> (r: BaseHtml<'src>)
        ensures
            r.title@ == Seq::<char>::empty(),
            r.x_data@ == Seq::<char>::empty(),
            !r.katex,
            !r.alpine,
            !r.blog,
            r.children@ == Seq::<char>::empty(),
            r.nav_bar_middle@ == Seq::<char>::empty(),
    {
        proof {
            reveal_strlit("");
        }
        BaseHtml {
            title: "",
            x_data: "",
            katex: false,
            alpine: false,
            blog: false,
            children: Markup::new(),
            nav_bar_middle: Markup::new(),
        }
    }
}

impl<'src> BaseHtml<'src> {
    /// The page as HTML.
    pub open spec fn html(self) -> Seq<char> {
        base_html(
            self.title@,
            self.x_data@,
            self.katex,
            self.alpine,
            self.children@,
            self.nav_bar_middle@,
        )
    }

    /// Renders the page.
    pub fn render(self) -> (r: Markup)
        ensures
            r@ == self.html(),
    {
        let wants_alpine = self.alpine || !self.x_data.is_empty();
        let mut out = Markup::pre_escaped("<!DOCTYPE html><html class=\"dark\">");
        out.push(&head(self.title, wants_alpine, self.katex));
        out.push(&nav_bar(self.nav_bar_middle));
        out.push_raw("<body x-data=\"");
        out.push_text(self.x_data);
        out.push_raw(
            "\" class=\"flex flex-col h-screen bg-white dark:bg-gray-900 text-black dark:text-gray-100\"><div class=\"flex-auto\">",
        );
        out.push(&self.children);
        out.push_raw("</div></body>");
        out.push(&footer());
        out.push_raw("</html>");
        out
    }
}

} // verus!
