//! The static copy of the site: the command lines that crawl the running
//! server and rewrite what was fetched, in the order they run in.

use crate::command::{command_views, CommandLine, CommandLineView};
use crate::text::words;
use vstd::prelude::*;

verus! {

/// The port the server listens on.
pub const PORT: &'static str = "8000";

/// The program that crawls the site.
pub const CRAWLER: &'static str = "suckit";

/// The program that rewrites the copy.
pub const REWRITER: &'static str = "ruplacer";

/// Links that climb out of the copy to another host, and what they become.
pub const OUTSIDE_LINKS: &'static str =
    r#"(\.\./)+([a-zA-Z\-\.]+)(\.com|\.me|\.net|\.org|\.mx)/ https://$2$3/ "#;

/// A path through the directory itself, up to the quote that ends it.
pub const SAME_DIRECTORY: &'static str = r#"/\./""#;

/// What a path through the directory itself becomes.
pub const SAME_DIRECTORY_REWRITE: &'static str = r#"/""#;

/// A class of highlighted code.
pub const SYNTAX_CLASS: &'static str = r#"syntax-([a-zA-Z]+)"#;

/// What a class of highlighted code becomes: itself and its dark variant.
pub const SYNTAX_CLASS_REWRITE: &'static str = "$0 dark:$0";

/// The address that the server listens on.
pub open spec fn listen_address_of(port: Seq<char>) -> Seq<char> {
    "0.0.0.0:"@ + port
}

/// The directory that the crawler writes under.
pub open spec fn target_dir_of(root: Seq<char>) -> Seq<char> {
    root + "/target"@
}

/// The directory that holds the copy.
pub open spec fn out_dir_of(root: Seq<char>) -> Seq<char> {
    target_dir_of(root) + "/0.0.0.0"@
}

/// The command lines that make the copy, in order: the crawl, then five
/// rewrites of the copy. The first three are the words of one line of
/// text each, so a directory with whitespace in its name falls apart
/// there; the last three take the directory as one argument.
pub open spec fn export_commands_of(root: Seq<char>, port: Seq<char>) -> Seq<CommandLineView> {
    let out_dir = out_dir_of(root);
    seq![
        CommandLineView {
            program: CRAWLER@,
            arguments: words("http://0.0.0.0:"@ + port + "/ -j 8 -o "@ + target_dir_of(root)),
        },
        CommandLineView {
            program: REWRITER@,
            arguments: words("index.html ./ "@ + out_dir + " --quiet --go"@),
        },
        CommandLineView {
            program: REWRITER@,
            arguments: words(OUTSIDE_LINKS@ + out_dir + " --quiet --go"@),
        },
        CommandLineView {
            program: REWRITER@,
            arguments: seq!["index_no_slash.html"@, Seq::empty(), out_dir, "--quiet"@, "--go"@],
        },
        CommandLineView {
            program: REWRITER@,
            arguments: seq![
                SAME_DIRECTORY@,
                SAME_DIRECTORY_REWRITE@,
                out_dir,
                "--quiet"@,
                "--go"@,
            ],
        },
        CommandLineView {
            program: REWRITER@,
            arguments: seq![
                SYNTAX_CLASS@,
                SYNTAX_CLASS_REWRITE@,
                out_dir,
                "-t"@,
                "*.html"@,
                "--quiet"@,
                "--go"@,
            ],
        },
    ]
}

/// The address that the server listens on.
pub fn listen_address(port: &str) -> (r: String)
    ensures
        r@ == listen_address_of(port@),
{
    let mut address = String::from_str("0.0.0.0:");
    address.append(port);
    address
}

/// The directory that the crawler writes under.
pub fn target_dir(root: &str) -> (r: String)
    ensures
        r@ == target_dir_of(root@),
{
    let mut dir = String::from_str(root);
    dir.append("/target");
    dir
}

/// The directory that holds the copy. An old copy is removed before a new
/// one is made.
pub fn out_dir(root: &str) -> (r: String)
    ensures
        r@ == out_dir_of(root@),
{
    let mut dir = target_dir(root);
    dir.append("/0.0.0.0");
    dir
}

/// The command lines that make the copy of the site served on `port`,
/// under the directory `root`.
pub fn export_commands(root: &str, port: &str) -> (r: Vec<CommandLine>)
    ensures
        command_views(r@) == export_commands_of(root@, port@),
{
    proof {
        reveal_strlit("");
        assert(""@ =~= Seq::<char>::empty());
    }
    let target = target_dir(root);
    let copy = out_dir(root);

    let mut crawl_line = String::from_str("http://0.0.0.0:");
    crawl_line.append(port);
    crawl_line.append("/ -j 8 -o ");
    crawl_line.append(target.as_str());
    let crawl = CommandLine::from_words(CRAWLER, crawl_line.as_str());

    let mut index_line = String::from_str("index.html ./ ");
    index_line.append(copy.as_str());
    index_line.append(" --quiet --go");
    let index = CommandLine::from_words(REWRITER, index_line.as_str());

    let mut links_line = String::from_str(OUTSIDE_LINKS);
    links_line.append(copy.as_str());
    links_line.append(" --quiet --go");
    let links = CommandLine::from_words(REWRITER, links_line.as_str());

    let mut no_slash = CommandLine::new(REWRITER);
    no_slash.arg("index_no_slash.html");
    no_slash.arg("");
    no_slash.arg(copy.as_str());
    no_slash.arg("--quiet");
    no_slash.arg("--go");

    let mut same = CommandLine::new(REWRITER);
    same.arg(SAME_DIRECTORY);
    same.arg(SAME_DIRECTORY_REWRITE);
    same.arg(copy.as_str());
    same.arg("--quiet");
    same.arg("--go");

    let mut syntax = CommandLine::new(REWRITER);
    syntax.arg(SYNTAX_CLASS);
    syntax.arg(SYNTAX_CLASS_REWRITE);
    syntax.arg(copy.as_str());
    syntax.arg("-t");
    syntax.arg("*.html");
    syntax.arg("--quiet");
    syntax.arg("--go");

    let ghost expected = export_commands_of(root@, port@);
    proof {
        assert(no_slash@.arguments =~= expected[3].arguments);
        assert(same@.arguments =~= expected[4].arguments);
        assert(syntax@.arguments =~= expected[5].arguments);
    }
    let mut commands: Vec<CommandLine> = Vec::new();
    commands.push(crawl);
    commands.push(index);
    commands.push(links);
    commands.push(no_slash);
    commands.push(same);
    commands.push(syntax);
    commands
}

/// Fixes the output type of a future where nothing else names it. It does
/// nothing to the future and nothing when it runs.
pub fn set_return_type<T, F: std::future::Future<Output = T>>(_arg: &F) {
}

} // verus!
