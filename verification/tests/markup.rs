use portfolio::markup::Markup;

#[test]
fn text_is_escaped() {
    assert_eq!(
        Markup::text("<a href=\"x\">Tom & Jerry's</a>").into_string(),
        "&lt;a href=&quot;x&quot;&gt;Tom &amp; Jerry's&lt;/a&gt;"
    );
    assert_eq!(Markup::text("plain text, ünïcode").into_string(), "plain text, ünïcode");
    assert_eq!(Markup::text("").into_string(), "");
    assert_eq!(Markup::text("&amp;").into_string(), "&amp;amp;");
}

#[test]
fn escaped_text_holds_no_markup_characters() {
    let out = Markup::text("<<\">>\"&<script>alert(\"x\")</script>").into_string();
    assert!(!out.contains('<'));
    assert!(!out.contains('>'));
    assert!(!out.contains('"'));
}

#[test]
fn escaping_goes_piece_by_piece() {
    let a = "if a < b && c > \"d\"";
    let b = " then <e>";
    let whole = format!("{a}{b}");
    let mut pieces = Markup::text(a);
    pieces.push_text(b);
    assert_eq!(pieces.into_string(), Markup::text(&whole).into_string());
}

#[test]
fn pre_escaped_is_unchanged() {
    assert_eq!(Markup::pre_escaped("<b>&amp;</b>").into_string(), "<b>&amp;</b>");
    assert_eq!(Markup::pre_escaped("<b>").as_str(), "<b>");
}

#[test]
fn new_and_default_are_empty() {
    assert_eq!(Markup::new().into_string(), "");
    assert_eq!(Markup::default().into_string(), "");
}

#[test]
fn pushes_append_in_order() {
    let mut out = Markup::pre_escaped("<p>");
    out.push_text("1 < 2");
    out.push_raw("<br>");
    out.push(&Markup::text("\"q\""));
    out.push_raw("</p>");
    assert_eq!(out.as_str(), "<p>1 &lt; 2<br>&quot;q&quot;</p>");
    assert_eq!(out.0, "<p>1 &lt; 2<br>&quot;q&quot;</p>");
}
