//! The text transforms of the document conversion: Markdown and HTML to
//! plain text, plain text and Markdown to HTML.

use vstd::prelude::*;
use crate::config::formats::{
    is_supported_document_input, is_supported_document_output, lists, DOCUMENT_INPUT,
    DOCUMENT_OUTPUT,
};
use crate::error::{AppError, AppErrorView};
use crate::text::{
    chars_of, find_first, first_index, glue, has_prefix, lemma_first_index, lowercase, push_all,
    push_text, range_has_prefix, replace_all, replaced, str_eq, string_from_chars, to_lowercase,
    trim_range, trimmed,
};

verus! {

/// A text without its tags: what stands between `<` and the next `>` is left
/// out, with the two signs. `in_tag` says whether the text starts inside a
/// tag.
pub open spec fn without_tags(s: Seq<char>, in_tag: bool) -> Seq<char>
    decreases s.len(),
{
    if s.len() == 0 {
        Seq::empty()
    } else if s[0] == '<' {
        without_tags(s.drop_first(), true)
    } else if s[0] == '>' {
        without_tags(s.drop_first(), false)
    } else if in_tag {
        without_tags(s.drop_first(), in_tag)
    } else {
        seq![s[0]] + without_tags(s.drop_first(), in_tag)
    }
}

/// The plain text of an HTML text: the tags are left out, then the entities
/// of the blank, of the angle brackets, of the ampersand and of the quotation
/// mark are written out, in this order.
pub open spec fn html_text(content: Seq<char>) -> Seq<char> {
    let a = without_tags(content, false);
    let b = replaced(a, "&nbsp;"@, " "@);
    let c = replaced(b, "&lt;"@, "<"@);
    let d = replaced(c, "&gt;"@, ">"@);
    let e = replaced(d, "&amp;"@, "&"@);
    replaced(e, "&quot;"@, "\""@)
}

fn strip_tags(v: &Vec<char>) -> (r: Vec<char>)
    ensures
        r@ == without_tags(v@, false),
{
    let n: usize = v.len();
    let mut out: Vec<char> = Vec::new();
    let mut in_tag: bool = false;
    let mut i: usize = 0;
    assert(v@.subrange(0, n as int) =~= v@);
    while i < n
        invariant
            i <= n,
            n == v.len(),
            without_tags(v@, false) == out@ + without_tags(v@.subrange(i as int, n as int), in_tag),
        decreases n - i,
    {
        let ghost rest = v@.subrange(i as int, n as int);
        let ghost before = out@;
        let ghost was = in_tag;
        let c: char = v[i];
        if c == '<' {
            in_tag = true;
        } else if c == '>' {
            in_tag = false;
        } else if !in_tag {
            out.push(c);
        }
        proof {
            assert(rest.drop_first() =~= v@.subrange(i + 1, n as int));
            assert(out@ + without_tags(v@.subrange(i + 1, n as int), in_tag) =~= before
                + without_tags(rest, was));
        }
        i += 1;
    }
    assert(out@ + without_tags(v@.subrange(n as int, n as int), in_tag) =~= out@);
    out
}

/// The plain text of an HTML text.
pub fn html_to_text(content: &str) -> (r: String)
    ensures
        r@ == html_text(content@),
{
    let v: Vec<char> = chars_of(content);
    let a: Vec<char> = strip_tags(&v);
    let b: Vec<char> = replace_all(&a, "&nbsp;", " ");
    let c: Vec<char> = replace_all(&b, "&lt;", "<");
    let d: Vec<char> = replace_all(&c, "&gt;", ">");
    let e: Vec<char> = replace_all(&d, "&amp;", "&");
    let f: Vec<char> = replace_all(&e, "&quot;", "\"");
    string_from_chars(f.as_slice())
}

/// What opens every HTML page that the conversion writes.
pub open spec fn html_head() -> Seq<char> {
    "<!DOCTYPE html>\n<html>\n<head>\n<meta charset=\"UTF-8\">\n</head>\n<body>\n"@
}

/// What closes every HTML page that the conversion writes.
pub open spec fn html_foot() -> Seq<char> {
    "</body>\n</html>"@
}

/// The HTML page of a plain text: the text as it is, with its angle brackets
/// written as entities, in a `pre` element.
pub open spec fn text_html(content: Seq<char>) -> Seq<char> {
    html_head() + "<pre>\n"@ + replaced(replaced(content, "<"@, "&lt;"@), ">"@, "&gt;"@)
        + "\n</pre>\n"@ + html_foot()
}

/// The HTML page of a plain text.
pub fn text_to_html(content: &str) -> (r: String)
    ensures
        r@ == text_html(content@),
{
    let v: Vec<char> = chars_of(content);
    let a: Vec<char> = replace_all(&v, "<", "&lt;");
    let b: Vec<char> = replace_all(&a, ">", "&gt;");
    let mut html: String =
        "<!DOCTYPE html>\n<html>\n<head>\n<meta charset=\"UTF-8\">\n</head>\n<body>\n".to_string();
    html.append("<pre>\n");
    html.append(string_from_chars(b.as_slice()).as_str());
    html.append("\n</pre>\n");
    html.append("</body>\n</html>");
    html
}

/// A line without the carriage return that ends it, if one does.
pub open spec fn without_return(line: Seq<char>) -> Seq<char> {
    if line.len() > 0 && line.last() == '\r' {
        line.drop_last()
    } else {
        line
    }
}

/// The lines of a text. A line ends with a line feed, or with a carriage
/// return and a line feed; the last line need not end at all.
pub open spec fn lines_of(s: Seq<char>) -> Seq<Seq<char>>
    decreases s.len(),
{
    if s.len() == 0 {
        Seq::empty()
    } else {
        let e = first_index(s, '\n');
        if 0 <= e < s.len() {
            seq![without_return(s.subrange(0, e))] + lines_of(s.subrange(e + 1, s.len() as int))
        } else {
            seq![s]
        }
    }
}

/// The HTML of one line of Markdown, trimmed: a heading of the first three
/// levels, a list item, a line break for an empty line, a paragraph
/// otherwise.
pub open spec fn markdown_line_html(t: Seq<char>) -> Seq<char> {
    if has_prefix(t, "### "@) {
        "<h3>"@ + t.subrange(4, t.len() as int) + "</h3>\n"@
    } else if has_prefix(t, "## "@) {
        "<h2>"@ + t.subrange(3, t.len() as int) + "</h2>\n"@
    } else if has_prefix(t, "# "@) {
        "<h1>"@ + t.subrange(2, t.len() as int) + "</h1>\n"@
    } else if has_prefix(t, "- "@) || has_prefix(t, "* "@) {
        "<li>"@ + t.subrange(2, t.len() as int) + "</li>\n"@
    } else if t.len() == 0 {
        "<br>\n"@
    } else {
        "<p>"@ + t + "</p>\n"@
    }
}

/// The HTML of the lines of a Markdown text, one after the other.
pub open spec fn markdown_lines_html(lines: Seq<Seq<char>>) -> Seq<char>
    decreases lines.len(),
{
    if lines.len() == 0 {
        Seq::empty()
    } else {
        markdown_lines_html(lines.drop_last()) + markdown_line_html(trimmed(lines.last()))
    }
}

/// The HTML page of a Markdown text.
pub open spec fn markdown_html(content: Seq<char>) -> Seq<char> {
    html_head() + markdown_lines_html(lines_of(content)) + html_foot()
}

/// The bounds of the lines of `v`, each without its line ending.
fn line_bounds(v: &Vec<char>) -> (r: Vec<(usize, usize)>)
    ensures
        r@.len() == lines_of(v@).len(),
        forall|k: int|
            0 <= k < r@.len() ==> (#[trigger] r@[k]).0 <= r@[k].1 <= v.len() && v@.subrange(
                r@[k].0 as int,
                r@[k].1 as int,
            ) == lines_of(v@)[k],
{
    let n: usize = v.len();
    let mut out: Vec<(usize, usize)> = Vec::new();
    let mut start: usize = 0;
    assert(v@.subrange(0, n as int) =~= v@);
    while start < n
        invariant
            start <= n,
            n == v.len(),
            lines_of(v@) == Seq::new(
                out@.len(),
                |k: int| v@.subrange(out@[k].0 as int, out@[k].1 as int),
            ) + lines_of(v@.subrange(start as int, n as int)),
            forall|k: int| 0 <= k < out@.len() ==> (#[trigger] out@[k]).0 <= out@[k].1 <= n,
        decreases n - start,
    {
        let ghost rest = v@.subrange(start as int, n as int);
        let ghost before = out@;
        let ghost done = Seq::new(
            before.len(),
            |k: int| v@.subrange(before[k].0 as int, before[k].1 as int),
        );
        let end: usize = find_first(v, start, n, '\n');
        proof {
            lemma_first_index(rest, '\n');
        }
        if end >= n {
            out.push((start, n));
            proof {
                let now = Seq::new(
                    out@.len(),
                    |k: int| v@.subrange(out@[k].0 as int, out@[k].1 as int),
                );
                assert(now =~= done.push(rest));
                assert(lines_of(v@.subrange(n as int, n as int)) =~= Seq::<Seq<char>>::empty());
                assert(now + lines_of(v@.subrange(n as int, n as int)) =~= done + seq![rest]);
            }
            start = n;
        } else {
            let stop: usize = if end > start && v[end - 1] == '\r' {
                end - 1
            } else {
                end
            };
            out.push((start, stop));
            proof {
                let line = rest.subrange(0, end - start);
                assert(line =~= v@.subrange(start as int, end as int));
                if line.len() > 0 {
                    assert(line.last() == v@[end - 1]);
                }
                assert(without_return(line) =~= v@.subrange(start as int, stop as int));
                assert(rest.subrange(end - start + 1, rest.len() as int) =~= v@.subrange(
                    end + 1,
                    n as int,
                ));
                let now = Seq::new(
                    out@.len(),
                    |k: int| v@.subrange(out@[k].0 as int, out@[k].1 as int),
                );
                assert(now =~= done.push(v@.subrange(start as int, stop as int)));
                assert(now + lines_of(v@.subrange(end + 1, n as int)) =~= done + lines_of(rest));
            }
            start = end + 1;
        }
    }
    proof {
        let now = Seq::new(out@.len(), |k: int| v@.subrange(out@[k].0 as int, out@[k].1 as int));
        assert(lines_of(v@.subrange(n as int, n as int)) =~= Seq::<Seq<char>>::empty());
        assert(lines_of(v@) =~= now);
        assert forall|k: int| 0 <= k < out@.len() implies v@.subrange(
            (#[trigger] out@[k]).0 as int,
            out@[k].1 as int,
        ) == lines_of(v@)[k] by {
            assert(now[k] == v@.subrange(out@[k].0 as int, out@[k].1 as int));
        }
    }
    out
}

fn push_markdown_line(out: &mut Vec<char>, v: &Vec<char>, a: usize, b: usize)
    requires
        a <= b <= v.len(),
    ensures
        final(out)@ == old(out)@ + markdown_line_html(v@.subrange(a as int, b as int)),
{
    let ghost t = v@.subrange(a as int, b as int);
    proof {
        reveal_strlit("### ");
        reveal_strlit("## ");
        reveal_strlit("# ");
        reveal_strlit("- ");
        reveal_strlit("* ");
        assert("### "@.len() == 4 && "## "@.len() == 3 && "# "@.len() == 2 && "- "@.len() == 2
            && "* "@.len() == 2);
    }
    if range_has_prefix(v, a, b, "### ") {
        push_text(out, "<h3>");
        push_all(out, v, a + 4, b);
        push_text(out, "</h3>\n");
        assert(t.subrange(4, t.len() as int) =~= v@.subrange(a + 4, b as int));
    } else if range_has_prefix(v, a, b, "## ") {
        push_text(out, "<h2>");
        push_all(out, v, a + 3, b);
        push_text(out, "</h2>\n");
        assert(t.subrange(3, t.len() as int) =~= v@.subrange(a + 3, b as int));
    } else if range_has_prefix(v, a, b, "# ") {
        push_text(out, "<h1>");
        push_all(out, v, a + 2, b);
        push_text(out, "</h1>\n");
        assert(t.subrange(2, t.len() as int) =~= v@.subrange(a + 2, b as int));
    } else if range_has_prefix(v, a, b, "- ") || range_has_prefix(v, a, b, "* ") {
        push_text(out, "<li>");
        push_all(out, v, a + 2, b);
        push_text(out, "</li>\n");
        assert(t.subrange(2, t.len() as int) =~= v@.subrange(a + 2, b as int));
    } else if a == b {
        push_text(out, "<br>\n");
    } else {
        push_text(out, "<p>");
        push_all(out, v, a, b);
        push_text(out, "</p>\n");
    }
}

/// The HTML page of a Markdown text.
pub fn markdown_to_html(content: &str) -> (r: String)
    ensures
        r@ == markdown_html(content@),
{
    let v: Vec<char> = chars_of(content);
    let lines: Vec<(usize, usize)> = line_bounds(&v);
    let mut out: Vec<char> = Vec::new();
    push_text(
        &mut out,
        "<!DOCTYPE html>\n<html>\n<head>\n<meta charset=\"UTF-8\">\n</head>\n<body>\n",
    );
    let ghost all = lines_of(v@);
    let mut i: usize = 0;
    while i < lines.len()
        invariant
            i <= lines.len(),
            all == lines_of(v@),
            lines@.len() == all.len(),
            forall|k: int|
                0 <= k < lines@.len() ==> (#[trigger] lines@[k]).0 <= lines@[k].1 <= v.len()
                    && v@.subrange(lines@[k].0 as int, lines@[k].1 as int) == all[k],
            out@ == html_head() + markdown_lines_html(all.take(i as int)),
        decreases lines.len() - i,
    {
        let (from, to) = lines[i];
        let ghost before = out@;
        assert(lines@[i as int].0 == from && lines@[i as int].1 == to);
        let (a, b) = trim_range(&v, from, to);
        push_markdown_line(&mut out, &v, a, b);
        proof {
            assert(all.take(i + 1).drop_last() =~= all.take(i as int));
            assert(all.take(i + 1).last() == all[i as int]);
            assert(out@ =~= html_head() + markdown_lines_html(all.take(i + 1)));
        }
        i += 1;
    }
    assert(all.take(i as int) =~= all);
    push_text(&mut out, "</body>\n</html>");
    string_from_chars(out.as_slice())
}

/// A text without the copies of a character that it starts with.
pub open spec fn without_leading(s: Seq<char>, c: char) -> Seq<char>
    decreases s.len(),
{
    if s.len() > 0 && s[0] == c {
        without_leading(s.drop_first(), c)
    } else {
        s
    }
}

/// One line of Markdown without its heading marks: a line that starts with
/// `#` loses its leading `#` signs and the blanks around the rest.
pub open spec fn markdown_line_text(line: Seq<char>) -> Seq<char> {
    if line.len() > 0 && line[0] == '#' {
        trimmed(without_leading(line, '#'))
    } else {
        line
    }
}

/// The lines of a Markdown text without their heading marks, separated by
/// line feeds.
pub open spec fn markdown_lines_text(lines: Seq<Seq<char>>) -> Seq<char>
    decreases lines.len(),
{
    if lines.len() == 0 {
        Seq::empty()
    } else if lines.len() == 1 {
        markdown_line_text(lines[0])
    } else {
        markdown_lines_text(lines.drop_last()) + seq!['\n'] + markdown_line_text(lines.last())
    }
}

/// Position of the first `c` in `s` at or after `from`, or the length of `s`.
pub open spec fn next_index(s: Seq<char>, from: int, c: char) -> int {
    if 0 <= from <= s.len() {
        from + first_index(s.subrange(from, s.len() as int), c)
    } else {
        s.len() as int
    }
}

/// Whether a Markdown link starts at the beginning of `s`: `[`, a label of
/// characters other than `]`, `](`, a target of characters other than `)`,
/// and `)`, label and target not empty. Returns where the label ends and
/// where the link ends.
pub open spec fn link_at_start(s: Seq<char>) -> Option<(int, int)> {
    if s.len() > 0 && s[0] == '[' {
        let j = next_index(s, 1, ']');
        if 1 < j && j + 1 < s.len() && s[j + 1] == '(' {
            let k = next_index(s, j + 2, ')');
            if j + 2 < k < s.len() {
                Some((j, k + 1))
            } else {
                None
            }
        } else {
            None
        }
    } else {
        None
    }
}

/// A text with each Markdown link replaced by its label, links taken from
/// the left.
pub open spec fn without_links(s: Seq<char>) -> Seq<char>
    decreases s.len(),
{
    if s.len() == 0 {
        s
    } else {
        match link_at_start(s) {
            Some((j, end)) => if 1 < j < end <= s.len() {
                s.subrange(1, j) + without_links(s.subrange(end, s.len() as int))
            } else {
                s
            },
            None => seq![s[0]] + without_links(s.drop_first()),
        }
    }
}

/// The plain text of a Markdown text: headings lose their marks, the marks
/// of emphasis are left out, underscores become blanks and links their
/// labels.
pub open spec fn markdown_text(content: Seq<char>) -> Seq<char> {
    let a = markdown_lines_text(lines_of(content));
    let b = replaced(a, "**"@, ""@);
    let c = replaced(b, "__"@, ""@);
    let d = replaced(c, "*"@, ""@);
    let e = replaced(d, "_"@, " "@);
    without_links(e)
}

fn skip_leading(v: &Vec<char>, from: usize, to: usize, c: char) -> (r: usize)
    requires
        from <= to <= v.len(),
    ensures
        from <= r <= to,
        v@.subrange(r as int, to as int) == without_leading(v@.subrange(from as int, to as int), c),
{
    let mut i: usize = from;
    while i < to && v[i] == c
        invariant
            from <= i <= to <= v.len(),
            without_leading(v@.subrange(from as int, to as int), c) == without_leading(
                v@.subrange(i as int, to as int),
                c,
            ),
        decreases to - i,
    {
        proof {
            let cur = v@.subrange(i as int, to as int);
            assert(cur[0] == v@[i as int]);
            assert(cur.drop_first() =~= v@.subrange(i + 1, to as int));
        }
        i += 1;
    }
    proof {
        let cur = v@.subrange(i as int, to as int);
        if i < to {
            assert(cur[0] == v@[i as int]);
        }
    }
    i
}

fn strip_links(v: &Vec<char>) -> (r: Vec<char>)
    ensures
        r@ == without_links(v@),
{
    let n: usize = v.len();
    let mut out: Vec<char> = Vec::new();
    let mut i: usize = 0;
    assert(v@.subrange(0, n as int) =~= v@);
    while i < n
        invariant
            i <= n,
            n == v.len(),
            without_links(v@) == out@ + without_links(v@.subrange(i as int, n as int)),
        decreases n - i,
    {
        let ghost rest = v@.subrange(i as int, n as int);
        let ghost before = out@;
        let mut matched: Option<(usize, usize)> = None;
        if v[i] == '[' {
            let j: usize = find_first(v, i + 1, n, ']');
            proof {
                assert(rest.subrange(1, rest.len() as int) =~= v@.subrange(i + 1, n as int));
            }
            if j > i + 1 && j < n && j + 1 < n && v[j + 1] == '(' {
                let k: usize = find_first(v, j + 2, n, ')');
                proof {
                    assert(rest.subrange(j - i + 2, rest.len() as int) =~= v@.subrange(
                        j + 2,
                        n as int,
                    ));
                }
                if k > j + 2 && k < n {
                    matched = Some((j, k + 1));
                }
            }
        }
        proof {
            assert(rest[0] == v@[i as int]);
            if i + 1 <= n {
                assert(rest.subrange(1, rest.len() as int) =~= v@.subrange(i + 1, n as int));
            }
        }
        match matched {
            Some((j, end)) => {
                push_all(&mut out, v, i + 1, j);
                proof {
                    assert(link_at_start(rest) == Some((j - i, end - i)));
                    assert(rest.subrange(1, j - i) =~= v@.subrange(i + 1, j as int));
                    assert(rest.subrange(end - i, rest.len() as int) =~= v@.subrange(
                        end as int,
                        n as int,
                    ));
                    assert(out@ + without_links(v@.subrange(end as int, n as int)) =~= before
                        + without_links(rest));
                }
                i = end;
            },
            None => {
                out.push(v[i]);
                proof {
                    assert(link_at_start(rest) is None);
                    assert(rest.drop_first() =~= v@.subrange(i + 1, n as int));
                    assert(out@ + without_links(v@.subrange(i + 1, n as int)) =~= before
                        + without_links(rest));
                }
                i += 1;
            },
        }
    }
    assert(out@ + without_links(v@.subrange(n as int, n as int)) =~= out@);
    out
}

/// The plain text of a Markdown text.
pub fn markdown_to_text(content: &str) -> (r: String)
    ensures
        r@ == markdown_text(content@),
{
    let v: Vec<char> = chars_of(content);
    let lines: Vec<(usize, usize)> = line_bounds(&v);
    let mut joined: Vec<char> = Vec::new();
    let ghost all = lines_of(v@);
    let mut i: usize = 0;
    while i < lines.len()
        invariant
            i <= lines.len(),
            all == lines_of(v@),
            lines@.len() == all.len(),
            forall|k: int|
                0 <= k < lines@.len() ==> (#[trigger] lines@[k]).0 <= lines@[k].1 <= v.len()
                    && v@.subrange(lines@[k].0 as int, lines@[k].1 as int) == all[k],
            joined@ == markdown_lines_text(all.take(i as int)),
        decreases lines.len() - i,
    {
        let (from, to) = lines[i];
        assert(lines@[i as int].0 == from && lines@[i as int].1 == to);
        let ghost line = v@.subrange(from as int, to as int);
        let ghost before = joined@;
        if i > 0 {
            joined.push('\n');
        }
        if from < to && v[from] == '#' {
            let s: usize = skip_leading(&v, from, to, '#');
            let (a, b) = trim_range(&v, s, to);
            push_all(&mut joined, &v, a, b);
            proof {
                assert(line[0] == v@[from as int]);
            }
        } else {
            push_all(&mut joined, &v, from, to);
            proof {
                if from < to {
                    assert(line[0] == v@[from as int]);
                }
            }
        }
        proof {
            assert(all.take(i + 1).drop_last() =~= all.take(i as int));
            assert(all.take(i + 1).last() == all[i as int]);
            if i == 0 {
                assert(all.take(1)[0] == all[0]);
                assert(before =~= Seq::<char>::empty());
                assert(joined@ =~= markdown_line_text(line));
            } else {
                assert(joined@ =~= before + seq!['\n'] + markdown_line_text(line));
            }
        }
        i += 1;
    }
    assert(all.take(i as int) =~= all);
    let b: Vec<char> = replace_all(&joined, "**", "");
    let c: Vec<char> = replace_all(&b, "__", "");
    let d: Vec<char> = replace_all(&c, "*", "");
    let e: Vec<char> = replace_all(&d, "_", " ");
    let f: Vec<char> = strip_links(&e);
    string_from_chars(f.as_slice())
}

/// The kind of a document, by the name of its format as it is given.
pub open spec fn is_markdown(format: Seq<char>) -> bool {
    format == "md"@ || format == "markdown"@
}

/// Whether a format, by its name as it is given, is HTML.
pub open spec fn is_html(format: Seq<char>) -> bool {
    format == "html"@ || format == "htm"@
}

/// The plain text of a document of the given format.
pub open spec fn document_text(content: Seq<char>, input_format: Seq<char>) -> Seq<char> {
    if is_markdown(input_format) {
        markdown_text(content)
    } else if is_html(input_format) {
        html_text(content)
    } else {
        content
    }
}

/// The HTML page of a document of the given format.
pub open spec fn document_html(content: Seq<char>, input_format: Seq<char>) -> Seq<char> {
    if is_markdown(input_format) {
        markdown_html(content)
    } else if is_html(input_format) {
        content
    } else {
        text_html(content)
    }
}

/// The plain text of a document.
pub fn extract_text(content: &str, input_format: &str) -> (r: String)
    ensures
        r@ == document_text(content@, input_format@),
{
    if str_eq(input_format, "md") || str_eq(input_format, "markdown") {
        markdown_to_text(content)
    } else if str_eq(input_format, "html") || str_eq(input_format, "htm") {
        html_to_text(content)
    } else {
        content.to_string()
    }
}

/// The HTML page of a document.
pub fn to_html(content: &str, input_format: &str) -> (r: String)
    ensures
        r@ == document_html(content@, input_format@),
{
    if str_eq(input_format, "md") || str_eq(input_format, "markdown") {
        markdown_to_html(content)
    } else if str_eq(input_format, "html") || str_eq(input_format, "htm") {
        content.to_string()
    } else {
        text_to_html(content)
    }
}

/// What a document is converted to.
#[derive(Debug)]
pub enum ConvertedDocument {
    /// The text to lay out on the pages of a PDF.
    PdfText(String),
    /// The bytes of the plain text.
    Text(String),
    /// The bytes of the HTML page.
    Html(String),
}

/// What a `ConvertedDocument` holds.
pub enum ConvertedDocumentView {
    PdfText(Seq<char>),
    Text(Seq<char>),
    Html(Seq<char>),
}

impl View for ConvertedDocument {
    type V = ConvertedDocumentView;

    open spec fn view(&self) -> ConvertedDocumentView {
        match self {
            ConvertedDocument::PdfText(t) => ConvertedDocumentView::PdfText(t@),
            ConvertedDocument::Text(t) => ConvertedDocumentView::Text(t@),
            ConvertedDocument::Html(t) => ConvertedDocumentView::Html(t@),
        }
    }
}

/// What converting a document comes to. The formats are checked first, the
/// input before the output. The output decides what is produced: the text
/// for a PDF, the plain text, or the HTML page.
pub open spec fn document_conversion(
    content: Seq<char>,
    input_format: Seq<char>,
    output_format: Seq<char>,
) -> Result<ConvertedDocumentView, AppErrorView> {
    if !lists(DOCUMENT_INPUT@, input_format) {
        Err(AppErrorView::UnsupportedFormat("Formato input non supportato: "@ + input_format))
    } else if !lists(DOCUMENT_OUTPUT@, output_format) {
        Err(AppErrorView::UnsupportedFormat("Formato output non supportato: "@ + output_format))
    } else {
        output_of(content, input_format, output_format)
    }
}

/// What is produced for an output format, whatever the case of its name.
pub open spec fn output_of(
    content: Seq<char>,
    input_format: Seq<char>,
    output_format: Seq<char>,
) -> Result<ConvertedDocumentView, AppErrorView> {
    let out = lowercase(output_format);
    if out == "pdf"@ {
        Ok(ConvertedDocumentView::PdfText(document_text(content, input_format)))
    } else if out == "txt"@ {
        Ok(ConvertedDocumentView::Text(document_text(content, input_format)))
    } else if out == "html"@ {
        Ok(ConvertedDocumentView::Html(document_html(content, input_format)))
    } else {
        Err(AppErrorView::UnsupportedFormat("Formato output non supportato: "@ + output_format))
    }
}

fn produce(content: &str, input_format: &str, output_format: &str) -> (r: Result<
    ConvertedDocument,
    AppError,
>)
    ensures
        match r {
            Ok(d) => output_of(content@, input_format@, output_format@) == Ok::<
                ConvertedDocumentView,
                AppErrorView,
            >(d@),
            Err(e) => output_of(content@, input_format@, output_format@) == Err::<
                ConvertedDocumentView,
                AppErrorView,
            >(e@),
        },
{
    let out = to_lowercase(output_format);
    if str_eq(out.as_str(), "pdf") {
        Ok(ConvertedDocument::PdfText(extract_text(content, input_format)))
    } else if str_eq(out.as_str(), "txt") {
        Ok(ConvertedDocument::Text(extract_text(content, input_format)))
    } else if str_eq(out.as_str(), "html") {
        Ok(ConvertedDocument::Html(to_html(content, input_format)))
    } else {
        Err(AppError::UnsupportedFormat(glue("Formato output non supportato: ", output_format)))
    }
}

/// Converts a document that was sent as data.
pub fn convert_document(content: &str, input_format: &str, output_format: &str) -> (r: Result<
    ConvertedDocument,
    AppError,
>)
    ensures
        match r {
            Ok(d) => document_conversion(content@, input_format@, output_format@) == Ok::<
                ConvertedDocumentView,
                AppErrorView,
            >(d@),
            Err(e) => document_conversion(content@, input_format@, output_format@) == Err::<
                ConvertedDocumentView,
                AppErrorView,
            >(e@),
        },
{
    if !is_supported_document_input(input_format) {
        return Err(
            AppError::UnsupportedFormat(glue("Formato input non supportato: ", input_format)),
        );
    }
    if !is_supported_document_output(output_format) {
        return Err(
            AppError::UnsupportedFormat(glue("Formato output non supportato: ", output_format)),
        );
    }
    produce(content, input_format, output_format)
}

/// Converts a document that was read from a file. The format of the input is
/// the extension of the file, `txt` where it has none; it is not checked.
pub fn convert_document_file(content: &str, input_extension: Option<&str>, output_format: &str) -> (r:
    Result<ConvertedDocument, AppError>)
    ensures
        match r {
            Ok(d) => output_of(
                content@,
                match input_extension {
                    Some(e) => e@,
                    None => "txt"@,
                },
                output_format@,
            ) == Ok::<ConvertedDocumentView, AppErrorView>(d@),
            Err(e) => output_of(
                content@,
                match input_extension {
                    Some(e) => e@,
                    None => "txt"@,
                },
                output_format@,
            ) == Err::<ConvertedDocumentView, AppErrorView>(e@),
        },
{
    let input_format: &str = match input_extension {
        Some(e) => e,
        None => "txt",
    };
    produce(content, input_format, output_format)
}

/// How many lines fit on the page of a PDF.
pub const PDF_PAGE_LINES: usize = 53;

/// The lines of a text that go on the page of a PDF: the first 53.
pub fn text_to_pdf(text: &str) -> (r: Vec<String>)
    ensures
        r.deep_view() == lines_of(text@).take(
            if lines_of(text@).len() < PDF_PAGE_LINES {
                lines_of(text@).len() as int
            } else {
                PDF_PAGE_LINES as int
            },
        ),
{
    let v: Vec<char> = chars_of(text);
    let lines: Vec<(usize, usize)> = line_bounds(&v);
    let count: usize = if lines.len() < PDF_PAGE_LINES {
        lines.len()
    } else {
        PDF_PAGE_LINES
    };
    let ghost all = lines_of(v@);
    let mut out: Vec<String> = Vec::new();
    let mut i: usize = 0;
    while i < count
        invariant
            i <= count <= lines.len(),
            all == lines_of(v@),
            lines@.len() == all.len(),
            forall|k: int|
                0 <= k < lines@.len() ==> (#[trigger] lines@[k]).0 <= lines@[k].1 <= v.len()
                    && v@.subrange(lines@[k].0 as int, lines@[k].1 as int) == all[k],
            out.deep_view() == all.take(i as int),
        decreases count - i,
    {
        let (from, to) = lines[i];
        assert(lines@[i as int].0 == from && lines@[i as int].1 == to);
        let ghost before = out.deep_view();
        out.push(crate::text::string_from_range(&v, from, to));
        assert(out.deep_view() =~= before.push(all[i as int]));
        assert(all.take(i + 1) =~= all.take(i as int).push(all[i as int]));
        i += 1;
    }
    out
}

} // verus!
