use converty::error::AppError;
use converty::handlers::document::{
    convert_document, convert_document_file, extract_text, html_to_text, markdown_to_html,
    markdown_to_text, text_to_html, text_to_pdf, to_html, ConvertedDocument,
};

const HEAD: &str = "<!DOCTYPE html>\n<html>\n<head>\n<meta charset=\"UTF-8\">\n</head>\n<body>\n";
const FOOT: &str = "</body>\n</html>";

#[test]
fn test_html_to_text() {
    assert_eq!(html_to_text("<p>Hello <b>world</b></p>"), "Hello world");
    assert_eq!(html_to_text("a &lt;b&gt; &amp; &quot;c&quot;&nbsp;d"), "a <b> & \"c\" d");
    assert_eq!(html_to_text("&amp;lt;"), "&lt;");
    assert_eq!(html_to_text("&amp;amp;"), "&amp;");
    assert_eq!(html_to_text("&lt;&amp;gt;"), "<&gt;");
    assert_eq!(html_to_text("x < y > z"), "x  z");
    assert_eq!(html_to_text("a > b"), "a  b");
    assert_eq!(html_to_text("<<a>>b"), "b");
    assert_eq!(html_to_text("unclosed <tag"), "unclosed ");
    assert_eq!(html_to_text("&l<i>t;"), "<");
    assert_eq!(html_to_text(""), "");
    assert_eq!(html_to_text("&nbsp&nbsp;"), "&nbsp ");
}

#[test]
fn test_text_to_html() {
    assert_eq!(
        text_to_html("a <b> & c"),
        format!("{}<pre>\na &lt;b&gt; & c\n</pre>\n{}", HEAD, FOOT)
    );
    assert_eq!(text_to_html(""), format!("{}<pre>\n\n</pre>\n{}", HEAD, FOOT));
    assert_eq!(text_to_html("<<>"), format!("{}<pre>\n&lt;&lt;&gt;\n</pre>\n{}", HEAD, FOOT));
}

#[test]
fn test_markdown_to_html() {
    let md = "# Title\n## Sub\n### Deep\n#### Deeper\n- one\n* two\n\n  plain text  \r\n#nospace\n-dash";
    let expected = format!(
        "{}<h1>Title</h1>\n<h2>Sub</h2>\n<h3>Deep</h3>\n<p>#### Deeper</p>\n<li>one</li>\n<li>two</li>\n<br>\n<p>plain text</p>\n<p>#nospace</p>\n<p>-dash</p>\n{}",
        HEAD, FOOT
    );
    assert_eq!(markdown_to_html(md), expected);
    assert_eq!(markdown_to_html(""), format!("{}{}", HEAD, FOOT));
    assert_eq!(markdown_to_html("\n"), format!("{}<br>\n{}", HEAD, FOOT));
    assert_eq!(markdown_to_html("a\n"), format!("{}<p>a</p>\n{}", HEAD, FOOT));
    assert_eq!(markdown_to_html("a\n\n"), format!("{}<p>a</p>\n<br>\n{}", HEAD, FOOT));
    assert_eq!(markdown_to_html("#  x"), format!("{}<h1> x</h1>\n{}", HEAD, FOOT));
    assert_eq!(markdown_to_html("# "), format!("{}<p>#</p>\n{}", HEAD, FOOT));
    assert_eq!(markdown_to_html("   ## è  "), format!("{}<h2>è</h2>\n{}", HEAD, FOOT));
}

#[test]
fn test_markdown_to_text() {
    assert_eq!(markdown_to_text("# Title\ntext"), "Title\ntext");
    assert_eq!(markdown_to_text("###   Deep  \n"), "Deep");
    assert_eq!(markdown_to_text("#"), "");
    assert_eq!(markdown_to_text(" # not a heading"), " # not a heading");
    assert_eq!(markdown_to_text("**bold** and __strong__"), "bold and strong");
    assert_eq!(markdown_to_text("*it* and _it_"), "it and  it ");
    assert_eq!(markdown_to_text("snake_case"), "snake case");
    assert_eq!(markdown_to_text("***x***"), "x");
    assert_eq!(markdown_to_text("___"), " ");
    assert_eq!(markdown_to_text("see [the docs](http://x/y) now"), "see the docs now");
    assert_eq!(markdown_to_text("[a](b)[c](d)"), "ac");
    assert_eq!(markdown_to_text("[a] (b)"), "[a] (b)");
    assert_eq!(markdown_to_text("[](b)"), "[](b)");
    assert_eq!(markdown_to_text("[a]()"), "[a]()");
    assert_eq!(markdown_to_text("[a](b"), "[a](b");
    assert_eq!(markdown_to_text("[[a](b)"), "[a");
    assert_eq!(markdown_to_text("[x]y [a](b)"), "[x]y a");
    assert_eq!(markdown_to_text("[a\nb](c\nd)"), "a\nb");
    assert_eq!(markdown_to_text("[a](b(c))"), "a)");
    assert_eq!(markdown_to_text("line one\r\nline two\n\nlast\r"), "line one\nline two\n\nlast\r");
    assert_eq!(markdown_to_text("a\n"), "a");
    assert_eq!(markdown_to_text(""), "");
    assert_eq!(markdown_to_text("\n\n"), "\n");
    assert_eq!(markdown_to_text("# [t_1](u)\n"), "t 1");
}

#[test]
fn test_extract_text_and_to_html_by_format() {
    assert_eq!(extract_text("# T", "md"), "T");
    assert_eq!(extract_text("# T", "markdown"), "T");
    assert_eq!(extract_text("<b>T</b>", "html"), "T");
    assert_eq!(extract_text("<b>T</b>", "htm"), "T");
    assert_eq!(extract_text("<b># T_</b>", "txt"), "<b># T_</b>");
    assert_eq!(extract_text("# T", "MD"), "# T");
    assert_eq!(to_html("# T", "md"), format!("{}<h1>T</h1>\n{}", HEAD, FOOT));
    assert_eq!(to_html("<b>T</b>", "html"), "<b>T</b>");
    assert_eq!(to_html("<b>T</b>", "htm"), "<b>T</b>");
    assert_eq!(to_html("a<b", "txt"), format!("{}<pre>\na&lt;b\n</pre>\n{}", HEAD, FOOT));
}

#[test]
fn test_convert_document() {
    match convert_document("# T", "md", "TXT") {
        Ok(ConvertedDocument::Text(t)) => assert_eq!(t, "T"),
        other => panic!("unexpected: {:?}", other),
    }
    match convert_document("# T", "md", "pdf") {
        Ok(ConvertedDocument::PdfText(t)) => assert_eq!(t, "T"),
        other => panic!("unexpected: {:?}", other),
    }
    match convert_document("a<b", "txt", "html") {
        Ok(ConvertedDocument::Html(t)) => {
            assert_eq!(t, format!("{}<pre>\na&lt;b\n</pre>\n{}", HEAD, FOOT))
        }
        other => panic!("unexpected: {:?}", other),
    }
    match convert_document("# T", "MD", "txt") {
        Ok(ConvertedDocument::Text(t)) => assert_eq!(t, "# T"),
        other => panic!("unexpected: {:?}", other),
    }
    match convert_document("x", "docx", "nope") {
        Err(AppError::UnsupportedFormat(text)) => {
            assert_eq!(text, "Formato input non supportato: docx")
        }
        other => panic!("unexpected: {:?}", other),
    }
    match convert_document("x", "txt", "docx") {
        Err(AppError::UnsupportedFormat(text)) => {
            assert_eq!(text, "Formato output non supportato: docx")
        }
        other => panic!("unexpected: {:?}", other),
    }
    match convert_document_file("<i>x</i>", Some("html"), "txt") {
        Ok(ConvertedDocument::Text(t)) => assert_eq!(t, "x"),
        other => panic!("unexpected: {:?}", other),
    }
    match convert_document_file("<i>x</i>", None, "txt") {
        Ok(ConvertedDocument::Text(t)) => assert_eq!(t, "<i>x</i>"),
        other => panic!("unexpected: {:?}", other),
    }
    match convert_document_file("x", Some("weird"), "md") {
        Err(AppError::UnsupportedFormat(text)) => {
            assert_eq!(text, "Formato output non supportato: md")
        }
        other => panic!("unexpected: {:?}", other),
    }
}

#[test]
fn test_pdf_page_holds_53_lines() {
    assert_eq!(text_to_pdf(""), Vec::<String>::new());
    assert_eq!(text_to_pdf("a\r\nb\n\nc"), vec!["a", "b", "", "c"]);
    let long: String = (1..=60).map(|n| format!("line {}\n", n)).collect();
    let lines = text_to_pdf(&long);
    assert_eq!(lines.len(), 53);
    assert_eq!(lines[0], "line 1");
    assert_eq!(lines[52], "line 53");
    let exact: String = (1..=53).map(|n| format!("{}\n", n)).collect();
    assert_eq!(text_to_pdf(&exact).len(), 53);
}
