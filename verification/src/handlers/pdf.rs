//! The `pdftoppm` command line of the PDF conversion, the page count that
//! `pdfinfo` reports, and the names of the pages in an archive.

use vstd::prelude::*;
use crate::config::formats::{is_supported_pdf_output, lists, PDF_OUTPUT};
use crate::error::{AppError, AppErrorView};
use crate::paths::{contains_separator, has_separator, with_extension, with_extension_of};
use crate::text::{
    char_is_whitespace, chars_of, decimal, find_first, first_index, glue, glue3, has_prefix,
    is_whitespace, leading_whitespace, lemma_first_index, lemma_leading_whitespace_is, lowercase,
    parse_unsigned, range_has_prefix, str_eq, to_lowercase, u64_to_string, unsigned_of,
};

verus! {

/// The page that is converted when the request names none.
pub const DEFAULT_PAGE: u32 = 1;

/// The resolution when the request names none.
pub const DEFAULT_DPI: u32 = 150;

/// The text with which a conversion is refused where `pdftoppm` is missing.
pub open spec fn pdftoppm_missing_text() -> Seq<char> {
    "pdftoppm (poppler-utils) non e' installato nel sistema"@
}

/// The text with which a PDF conversion to an unsupported format is refused.
pub open spec fn pdf_output_refused_text(format: Seq<char>) -> Seq<char> {
    "Formato output non supportato per PDF: "@ + format
        + ". Formati supportati: png, jpg, tiff"@
}

/// What checking a PDF conversion comes to: the tool must be installed and
/// the output format one that it writes.
pub open spec fn pdf_check(output_format: Seq<char>, pdftoppm_available: bool) -> Result<
    (),
    AppErrorView,
> {
    if !pdftoppm_available {
        Err(AppErrorView::PopplerError(pdftoppm_missing_text()))
    } else if !lists(PDF_OUTPUT@, output_format) {
        Err(AppErrorView::UnsupportedFormat(pdf_output_refused_text(output_format)))
    } else {
        Ok(())
    }
}

/// Accepts a PDF conversion and settles its page and resolution: page 1 at
/// 150 dots per inch where the request names none.
pub fn convert_pdf_to_image(
    output_format: &str,
    page: Option<u32>,
    dpi: Option<u32>,
    pdftoppm_available: bool,
) -> (r: Result<(u32, u32), AppError>)
    ensures
        match r {
            Ok(p) => pdf_check(output_format@, pdftoppm_available) is Ok && p.0 == (match page {
                Some(n) => n,
                None => DEFAULT_PAGE,
            }) && p.1 == (match dpi {
                Some(n) => n,
                None => DEFAULT_DPI,
            }),
            Err(e) => pdf_check(output_format@, pdftoppm_available) == Err::<(), AppErrorView>(
                e@,
            ),
        },
{
    if !pdftoppm_available {
        return Err(
            AppError::PopplerError(
                "pdftoppm (poppler-utils) non e' installato nel sistema".to_string(),
            ),
        );
    }
    if !is_supported_pdf_output(output_format) {
        return Err(
            AppError::UnsupportedFormat(
                glue3(
                    "Formato output non supportato per PDF: ",
                    output_format,
                    ". Formati supportati: png, jpg, tiff",
                ),
            ),
        );
    }
    Ok(
        (
            match page {
                Some(n) => n,
                None => 1,
            },
            match dpi {
                Some(n) => n,
                None => 150,
            },
        ),
    )
}

/// The flag that makes `pdftoppm` write a format given in lowercase.
pub open spec fn format_flag(format: Seq<char>) -> Option<Seq<char>> {
    if format == "png"@ {
        Some("-png"@)
    } else if format == "jpg"@ || format == "jpeg"@ {
        Some("-jpeg"@)
    } else if format == "tiff"@ {
        Some("-tiff"@)
    } else {
        None
    }
}

/// The extension of the file that `pdftoppm` writes for a format: `jpg` for
/// JPEG, `tif` for TIFF, the name of the format otherwise.
pub open spec fn written_extension(format: Seq<char>) -> Seq<char> {
    let lower = lowercase(format);
    if lower == "jpg"@ || lower == "jpeg"@ {
        "jpg"@
    } else if lower == "tiff"@ {
        "tif"@
    } else {
        format
    }
}

/// The arguments that make `pdftoppm` convert one page into one file.
pub open spec fn pdftoppm_args(
    input_path: Seq<char>,
    output_prefix: Seq<char>,
    flag: Seq<char>,
    page: u32,
    dpi: u32,
) -> Seq<Seq<char>> {
    seq![
        "-f"@,
        decimal(page as int),
        "-l"@,
        decimal(page as int),
        "-r"@,
        decimal(dpi as int),
        "-singlefile"@,
        flag,
        input_path,
        output_prefix,
    ]
}

/// A run of `pdftoppm`: its arguments, and the file that it is to write.
#[derive(Debug)]
pub struct PdftoppmRun {
    pub args: Vec<String>,
    pub output_path: String,
}

/// The flag with which a run of `pdftoppm` is prepared for a format: that of
/// the format, or none where `pdftoppm` does not write the format or the
/// extension of the written file would hold a path separator.
pub open spec fn run_flag(output_format: Seq<char>) -> Option<Seq<char>> {
    if has_separator(written_extension(output_format)) {
        None
    } else {
        format_flag(lowercase(output_format))
    }
}

/// Prepares the run of `pdftoppm` that converts one page of a PDF. Fails for
/// a format that `pdftoppm` does not write, and for a format name that holds
/// a path separator.
pub fn run_pdftoppm(
    input_path: &str,
    output_prefix: &str,
    output_format: &str,
    page: u32,
    dpi: u32,
) -> (r: Result<PdftoppmRun, AppError>)
    ensures
        match run_flag(output_format@) {
            Some(flag) => r matches Ok(run) && run.args.deep_view() == pdftoppm_args(
                input_path@,
                output_prefix@,
                flag,
                page,
                dpi,
            ) && run.output_path@ == with_extension_of(
                output_prefix@,
                written_extension(output_format@),
            ),
            None => r matches Err(e) && e@ == AppErrorView::UnsupportedFormat(
                "Formato non supportato: "@ + output_format@,
            ),
        },
{
    let lower = to_lowercase(output_format);
    let f: &str = lower.as_str();
    let jpeg: bool = str_eq(f, "jpg") || str_eq(f, "jpeg");
    let tiff: bool = str_eq(f, "tiff");
    let ext: &str = if jpeg {
        "jpg"
    } else if tiff {
        "tif"
    } else {
        output_format
    };
    if contains_separator(ext) {
        return Err(AppError::UnsupportedFormat(glue("Formato non supportato: ", output_format)));
    }
    let flag: &str = if str_eq(f, "png") {
        "-png"
    } else if jpeg {
        "-jpeg"
    } else if tiff {
        "-tiff"
    } else {
        return Err(AppError::UnsupportedFormat(glue("Formato non supportato: ", output_format)));
    };
    let mut args: Vec<String> = Vec::new();
    args.push("-f".to_string());
    args.push(u64_to_string(page as u64));
    args.push("-l".to_string());
    args.push(u64_to_string(page as u64));
    args.push("-r".to_string());
    args.push(u64_to_string(dpi as u64));
    args.push("-singlefile".to_string());
    args.push(flag.to_string());
    args.push(input_path.to_string());
    args.push(output_prefix.to_string());
    assert(args.deep_view() =~= pdftoppm_args(input_path@, output_prefix@, flag@, page, dpi));
    Ok(PdftoppmRun { args, output_path: with_extension(output_prefix, ext) })
}

/// The number that a text writes: decimal digits, at least one, after an
/// optional plus sign, no larger than a `u32` holds.
pub open spec fn number_of(token: Seq<char>) -> Option<u32> {
    match unsigned_of(token, u32::MAX as nat) {
        Some(v) => Some(v as u32),
        None => None,
    }
}

/// How many characters at the start of a text are not whitespace.
pub open spec fn word_len(s: Seq<char>) -> int
    decreases s.len(),
{
    if s.len() == 0 || is_whitespace(s[0]) {
        0
    } else {
        1 + word_len(s.drop_first())
    }
}

/// The word of a text with the given number, counted from zero: words are
/// the runs of characters between whitespace.
pub open spec fn nth_word(s: Seq<char>, n: nat) -> Option<Seq<char>>
    decreases s.len(),
{
    let a = leading_whitespace(s);
    if 0 <= a <= s.len() {
        let rest = s.subrange(a, s.len() as int);
        let b = word_len(rest);
        if 0 < b <= rest.len() {
            if n == 0 {
                Some(rest.subrange(0, b))
            } else {
                nth_word(rest.subrange(b, rest.len() as int), (n - 1) as nat)
            }
        } else {
            None
        }
    } else {
        None
    }
}

/// Whether a text starts with `Pages:`.
pub open spec fn is_pages_line(line: Seq<char>) -> bool {
    has_prefix(line, "Pages:"@)
}

/// The page count that a line of the report of `pdfinfo` gives, if it gives
/// one: the second word of a line that starts with `Pages:`.
pub open spec fn line_page_count(line: Seq<char>) -> Option<u32> {
    if is_pages_line(line) {
        match nth_word(line, 1) {
            Some(word) => number_of(word),
            None => None,
        }
    } else {
        None
    }
}

/// The page count that the report of `pdfinfo` gives: that of its first line
/// that gives one, and 1 where no line does.
pub open spec fn reported_page_count(report: Seq<char>) -> u32
    decreases report.len(),
{
    let e = first_index(report, '\n');
    if 0 <= e <= report.len() {
        match line_page_count(report.subrange(0, e)) {
            Some(n) => n,
            None => if e < report.len() {
                reported_page_count(report.subrange(e + 1, report.len() as int))
            } else {
                1
            },
        }
    } else {
        1
    }
}

/// `word_len` counts a prefix without whitespace that whitespace, or the
/// end, follows.
pub proof fn lemma_word_len_is(s: Seq<char>, n: int)
    requires
        0 <= n <= s.len(),
        forall|j: int| 0 <= j < n ==> !is_whitespace(s[j]),
        n < s.len() ==> is_whitespace(s[n]),
    ensures
        word_len(s) == n,
    decreases s.len(),
{
    if n > 0 {
        let t = s.drop_first();
        assert forall|j: int| 0 <= j < n - 1 implies !is_whitespace(t[j]) by {
            assert(t[j] == s[j + 1]);
        }
        lemma_word_len_is(t, n - 1);
    }
}

fn parse_number(v: &Vec<char>, from: usize, to: usize) -> (r: Option<u32>)
    requires
        from <= to <= v.len(),
    ensures
        r == number_of(v@.subrange(from as int, to as int)),
{
    match parse_unsigned(v, from, to, 4294967295) {
        Some(n) => Some(n as u32),
        None => None,
    }
}

fn skip_whitespace(v: &Vec<char>, from: usize, to: usize) -> (r: usize)
    requires
        from <= to <= v.len(),
    ensures
        from <= r <= to,
        r == from + leading_whitespace(v@.subrange(from as int, to as int)),
{
    let mut i: usize = from;
    while i < to && char_is_whitespace(v[i])
        invariant
            from <= i <= to <= v.len(),
            forall|j: int| from <= j < i ==> is_whitespace(v@[j]),
        decreases to - i,
    {
        i += 1;
    }
    proof {
        lemma_leading_whitespace_is(v@.subrange(from as int, to as int), i - from);
    }
    i
}

fn skip_word(v: &Vec<char>, from: usize, to: usize) -> (r: usize)
    requires
        from <= to <= v.len(),
    ensures
        from <= r <= to,
        r == from + word_len(v@.subrange(from as int, to as int)),
{
    let mut i: usize = from;
    while i < to && !char_is_whitespace(v[i])
        invariant
            from <= i <= to <= v.len(),
            forall|j: int| from <= j < i ==> !is_whitespace(v@[j]),
        decreases to - i,
    {
        i += 1;
    }
    proof {
        lemma_word_len_is(v@.subrange(from as int, to as int), i - from);
    }
    i
}

fn second_word(v: &Vec<char>, from: usize, to: usize) -> (r: Option<(usize, usize)>)
    requires
        from <= to <= v.len(),
    ensures
        match r {
            Some(w) => from <= w.0 <= w.1 <= to && nth_word(
                v@.subrange(from as int, to as int),
                1,
            ) == Some(v@.subrange(w.0 as int, w.1 as int)),
            None => nth_word(v@.subrange(from as int, to as int), 1) is None,
        },
{
    let ghost line = v@.subrange(from as int, to as int);
    let a: usize = skip_whitespace(v, from, to);
    let b: usize = skip_word(v, a, to);
    proof {
        reveal_with_fuel(nth_word, 3);
        assert(line.subrange(a - from, line.len() as int) =~= v@.subrange(a as int, to as int));
    }
    if b == a {
        return None;
    }
    let ghost rest = v@.subrange(a as int, to as int);
    let ghost tail = v@.subrange(b as int, to as int);
    proof {
        assert(rest.subrange(b - a, rest.len() as int) =~= tail);
    }
    let c: usize = skip_whitespace(v, b, to);
    let d: usize = skip_word(v, c, to);
    proof {
        assert(tail.subrange(c - b, tail.len() as int) =~= v@.subrange(c as int, to as int));
        let last = v@.subrange(c as int, to as int);
        assert(last.subrange(0, d - c) =~= v@.subrange(c as int, d as int));
    }
    if d == c {
        None
    } else {
        Some((c, d))
    }
}

/// Reads the page count from the report of `pdfinfo`.
pub fn get_pdf_page_count(report: &str) -> (r: u32)
    ensures
        r == reported_page_count(report@),
{
    let v: Vec<char> = chars_of(report);
    let n: usize = v.len();
    let mut start: usize = 0;
    assert(v@.subrange(0, n as int) =~= v@);
    loop
        invariant
            start <= n,
            n == v.len(),
            v@ == report@,
            reported_page_count(v@) == reported_page_count(v@.subrange(start as int, n as int)),
        decreases n - start,
    {
        let ghost rest = v@.subrange(start as int, n as int);
        let end: usize = find_first(&v, start, n, '\n');
        proof {
            lemma_first_index(rest, '\n');
            assert(rest.subrange(0, end - start) =~= v@.subrange(start as int, end as int));
        }
        if range_has_prefix(&v, start, end, "Pages:") {
            match second_word(&v, start, end) {
                Some((a, b)) => match parse_number(&v, a, b) {
                    Some(count) => {
                        return count;
                    },
                    None => {},
                },
                None => {},
            }
        }
        if end >= n {
            return 1;
        }
        proof {
            assert(rest.subrange(end - start + 1, rest.len() as int) =~= v@.subrange(
                end + 1,
                n as int,
            ));
        }
        start = end + 1;
    }
}

/// The decimal text of a page number, filled with zeros to three digits.
pub open spec fn page_number_text(page: u32) -> Seq<char> {
    if page < 10 {
        "00"@ + decimal(page as int)
    } else if page < 100 {
        "0"@ + decimal(page as int)
    } else {
        decimal(page as int)
    }
}

/// The name of the image of a page.
pub open spec fn page_file_name(page: u32, output_format: Seq<char>) -> Seq<char> {
    "page_"@ + page_number_text(page) + "."@ + output_format
}

/// The names of the images of the pages 1 to `page_count`.
pub open spec fn page_file_names(page_count: u32, output_format: Seq<char>) -> Seq<Seq<char>> {
    Seq::new(page_count as nat, |i: int| page_file_name((i + 1) as u32, output_format))
}

fn page_name(page: u32, output_format: &str) -> (r: String)
    ensures
        r@ == page_file_name(page, output_format@),
{
    let number: String = u64_to_string(page as u64);
    let padded: String = if page < 10 {
        glue("00", number.as_str())
    } else if page < 100 {
        glue("0", number.as_str())
    } else {
        number
    };
    let mut name: String = glue3("page_", padded.as_str(), ".");
    name.append(output_format);
    name
}

/// Names the images of all pages of a PDF, page by page from the first.
pub fn convert_pdf_all_pages(page_count: u32, output_format: &str) -> (r: Vec<String>)
    ensures
        r.deep_view() == page_file_names(page_count, output_format@),
{
    let mut names: Vec<String> = Vec::new();
    let mut page: u32 = 0;
    while page < page_count
        invariant
            page <= page_count,
            names.deep_view() == page_file_names(page, output_format@),
        decreases page_count - page,
    {
        let ghost before = names.deep_view();
        names.push(page_name(page + 1, output_format));
        assert(names.deep_view() =~= page_file_names((page + 1) as u32, output_format@)) by {
            assert(names.deep_view() =~= before.push(page_file_name((page + 1) as u32, output_format@)));
        }
        page += 1;
    }
    names
}

/// The names under which the images of the pages go into the archive: each
/// in a folder named after the PDF.
pub open spec fn archive_entries(
    base_name: Seq<char>,
    page_count: u32,
    output_format: Seq<char>,
) -> Seq<Seq<char>> {
    Seq::new(
        page_count as nat,
        |i: int| base_name + "/"@ + page_file_name((i + 1) as u32, output_format),
    )
}

/// Names the entries of the archive that holds the images of all pages of a
/// PDF.
pub fn convert_pdf_to_zip(base_name: &str, page_count: u32, output_format: &str) -> (r: Vec<String>)
    ensures
        r.deep_view() == archive_entries(base_name@, page_count, output_format@),
{
    let names: Vec<String> = convert_pdf_all_pages(page_count, output_format);
    assert(names.deep_view().len() == names.len());
    let mut entries: Vec<String> = Vec::new();
    let mut i: usize = 0;
    while i < names.len()
        invariant
            i <= names.len(),
            names.len() == page_count,
            names.deep_view() == page_file_names(page_count, output_format@),
            entries.deep_view() == archive_entries(base_name@, page_count, output_format@).take(
                i as int,
            ),
        decreases names.len() - i,
    {
        let ghost before = entries.deep_view();
        entries.push(glue3(base_name, "/", names[i].as_str()));
        proof {
            let all = archive_entries(base_name@, page_count, output_format@);
            assert(names.deep_view()[i as int] == names[i as int]@);
            assert(entries.deep_view() =~= before.push(all[i as int]));
            assert(all.take(i + 1) =~= all.take(i as int).push(all[i as int]));
        }
        i += 1;
    }
    proof {
        let all = archive_entries(base_name@, page_count, output_format@);
        assert(all.take(i as int) =~= all);
    }
    entries
}

} // verus!
