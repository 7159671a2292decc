use portfolio::blog::{blog, search_bar, tag, BlogEntryNutshell};
use portfolio::layout::BaseHtml;
use portfolio::markup::Markup;

const SEARCH_SCRIPT: &str = r#"
            function hasValue(searchIn, searchFor) {
              const searchForWords = searchFor.split(/[ ,]+/);
              for (const word of searchForWords) {
                if (searchIn.includes(word)) {
                  return true;
                }
              }
              return false;
            }

            function removeWord(string, word) {
              const parts = string.split(/(, | )/);
              const filteredParts = parts.filter(part => part !== word && part !== `, ${word}` && part !== ` ${word}`);
              const newString = filteredParts.join("");

              return newString.replace(/[, ]+/g, " ").trim().replace(/^[, ]+|[, ]+$/g, "");
            }

            function addWord(string, word) {
                const words = string.split(/[, ]+/);
                if (!words.includes(word)) {
                    words.push(word);
                }
                return words.join(" ").replace(/^[, ]+|[, ]+$/g, "");
            }

            document.addEventListener('alpine:init', () => {
                Alpine.store('search', {
                    text: '',

                    update(text) {
                        this.text = text
                    }
                })
            })
        "#;

const SEARCH_ICON: &str = r#"
                                <svg xmlns="http://www.w3.org/2000/svg" viewBox="0 0 16 16" fill="currentColor" class="size-4">
                                  <path fill-rule="evenodd" d="M9.965 11.026a5 5 0 1 1 1.06-1.06l2.755 2.754a.75.75 0 1 1-1.06 1.06l-2.755-2.754ZM10.5 7a3.5 3.5 0 1 1-7 0 3.5 3.5 0 0 1 7 0Z" clip-rule="evenodd" />
                                </svg>
                            "#;

const SEARCH_INPUT: &str = r#"
                                <input style="-webkit-appearance: none; -webkit-border-radius:0px;" x-model="$store.search.text" type="search" class="search-input h-full grow !border-none !focus:ring-0 !outline-none relative !bg-transparent rounded-none" placeholder="Quick search..."/>
                            "#;

const DATA: &str = r#"{
                    show_item(el){
                        return $store.search.text === '' || hasValue(el.textContent.toLowerCase(), $store.search.text.toLowerCase());
                    }
                }"#;

fn expected_tag(name: &str, id: &str) -> String {
    let effect = format!("
                    if (hasValue($store.search.text, '{name}')) {{
                        $el.classList.remove('bg-gray-400/10');
                        $el.classList.remove('dark:bg-gray-950/30');
                        $el.classList.add('bg-gray-800/10');
                        $el.classList.add('dark:bg-gray-600/30');
                    }} else {{
                        $el.classList.add('bg-gray-400/10');
                        $el.classList.add('dark:bg-gray-950/30');
                        $el.classList.remove('bg-gray-800/10');
                        $el.classList.remove('dark:bg-gray-600/30');
                    }}
                ");
    let click = format!(
        "if (!hasValue($store.search.text, '{name}')) {{
                        $store.search.update(addWord($store.search.text, '{name}'))
                    }} else {{
                        $store.search.update(removeWord($store.search.text, '{name}'))
                    }}"
    );
    format!(
        "<div class=\"relative pr-0.5\"><button id=\"{id}\" type=\"button\" class=\"text-gray-500 text-xs leading-5 font-semibold bg-gray-400/10 rounded-full py-1 px-3 flex items-center dark:bg-gray-950/30 dark:text-gray-400 dark:shadow-highlight/4\" x-effect=\"{effect}\" x-on:click=\"{click}\">{name}</button></div>"
    )
}

fn expected_entry(href: &str, title: &str, date: &str, des: &str, tags: &[(&str, &str)]) -> String {
    let mut all = expected_tag(date, date);
    for (name, id) in tags {
        all.push_str(&expected_tag(name, id));
    }
    format!(
        "<div class=\"flex flex-col\" x-show=\"show_item($el)\"><div class=\"flex\">{all}</div><a href=\"{href}\"><div class=\"flex justify-between items-center flex-row-revert\"><h2 class=\"blog-title font-bold text-lg pb-2 hover:text-orange-500 text-left\">{title}</h2></div></a><a href=\"{href}\"><p class=\"text-justify\">{des}</p></a></div>"
    )
}

fn expected_search_bar() -> String {
    format!(
        "<script>{SEARCH_SCRIPT}</script><div class=\"wrapper relative max-w-screen-md container text-left v-screen mx-auto px-10 text-black dark:text-gray-100\"><div class=\"lg:text-sm lg:leading-6 relative\"><div class=\"sticky pointer-events-none\"><div class=\"relative pointer-events-auto\"><div class=\"p-0 w-full flex items-center text-sm leading-6 text-gray-400 rounded-md ring-1 ring-gray-950/10 shadow-sm py-1.5 pl-2 pr-3 bg-white dark:bg-gray-950/30 md:dark:highlight-white/5 space-x-2 md:dark:hover:bg-gray-950\">{SEARCH_ICON}{SEARCH_INPUT}</div></div></div></div></div>"
    )
}

#[test]
fn tag_is_a_button_that_searches_for_its_name() {
    assert_eq!(tag("Rust", "rust").into_string(), expected_tag("Rust", "rust"));
    let html = tag("Rust", "rust").into_string();
    assert!(html.starts_with("<div class=\"relative pr-0.5\"><button id=\"rust\" type=\"button\""));
    assert!(html.contains("x-effect=\"\n                    if (hasValue($store.search.text, 'Rust')) {\n"));
    assert!(html.contains("x-on:click=\"if (!hasValue($store.search.text, 'Rust')) {\n"));
    assert!(html.contains("$store.search.update(addWord($store.search.text, 'Rust'))"));
    assert!(html.contains("$store.search.update(removeWord($store.search.text, 'Rust'))\n                    }\">Rust</button></div>"));
    assert_eq!(html.matches("'Rust'").count(), 4);
}

#[test]
fn tag_escapes_its_name_and_its_id() {
    assert_eq!(
        tag("C & \"C++\"", "<c>").into_string(),
        expected_tag("C &amp; &quot;C++&quot;", "&lt;c&gt;")
    );
}

#[test]
fn nutshell_shows_the_date_first_and_links_twice() {
    let entry = BlogEntryNutshell {
        href: "./a&b/",
        title: "Less < more",
        date: "2024-01-02",
        des: "Some <b>bold</b> words",
        tags: &[("Rust", "rust"), ("C", "c")],
    };
    assert_eq!(
        entry.render().into_string(),
        expected_entry(
            "./a&amp;b/",
            "Less &lt; more",
            "2024-01-02",
            "Some <b>bold</b> words",
            &[("Rust", "rust"), ("C", "c")]
        )
    );
}

#[test]
fn nutshell_without_tags_has_the_date_only() {
    let entry = BlogEntryNutshell { href: "/x/", title: "T", date: "D", des: "", tags: &[] };
    let html = entry.render().into_string();
    assert_eq!(html, expected_entry("/x/", "T", "D", "", &[]));
    assert_eq!(html.matches("<button").count(), 1);
}

#[test]
fn search_bar_holds_the_script_and_the_field() {
    assert_eq!(search_bar().into_string(), expected_search_bar());
}

#[test]
fn blog_lists_the_articles_newest_first() {
    let entries = [
        expected_entry(
            "./networking-notes/",
            "[WIP] Networking notes",
            "2023-06-11",
            "Random notes from the book Network Programming with Rust by Abhishek Chanda, the Guide to Network Programming by Brian Hall, and other sources.",
            &[("Rust", "rust"), ("C", "c"), ("WIP", "wip")],
        ),
        expected_entry(
            "./parser-comb-notes/",
            "[WIP] Parser combinator notes",
            "2023-03-16",
            "Parser combinators are simple, powerful and flexible for building parsers. I explore how to do it with Rust",
            &[("Rust", "rust"), ("Parser", "parser"), ("WIP", "wip")],
        ),
        expected_entry(
            "./type-guidance/",
            "Type guidance on APIs using PhantomData",
            "2022-08-06",
            "In this writeup I learn about PhantomData and how to use it to design unbreakable APIs.",
            &[("Rust", "rust")],
        ),
        expected_entry(
            "./covid/",
            "Data analysis exercise: COVID19 in México",
            "2021-12-25",
            "A naive examination of open data from México about COVID-19. The purpose, to strengthen my general analysis skills, practicing methods used to produce high-quality media.",
            &[("Mathematica", "mathematica")],
        ),
    ];
    let body = format!(
        "<div class=\"wrapper relative max-w-screen-md container text-left v-screen mx-auto pt-6 md:py-6 px-10 text-black dark:text-gray-100\" x-data=\"{DATA}\"><div class=\"flex flex-col space-y-10 md:space-y-0\"><h1>Blog</h1></div><div class=\"flex flex-col gap-5\">{}</div></div>",
        entries.concat()
    );
    let page = BaseHtml {
        title: "Blog - AOx0",
        alpine: true,
        children: Markup::pre_escaped(&body),
        nav_bar_middle: Markup::pre_escaped(&expected_search_bar()),
        ..Default::default()
    };
    let html = blog().into_string();
    assert_eq!(html, page.render().into_string());
    assert!(html.contains("<title>Blog - AOx0</title>"));
    assert!(html.contains("cdn.min.js\" defer init></script>"));
    assert!(!html.contains("katex"));
    assert_eq!(html.matches("x-show=\"show_item($el)\"").count(), 4);
    let first = html.find("[WIP] Networking notes").unwrap();
    let last = html.find("Data analysis exercise: COVID19 in México").unwrap();
    assert!(first < last);
}
