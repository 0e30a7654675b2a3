//! The state of the service and the formats that it converts.

use vstd::prelude::*;
use crate::config::formats::{
    names, AUDIO_INPUT, AUDIO_OUTPUT, DOCUMENT_INPUT, DOCUMENT_OUTPUT, IMAGE_INPUT, IMAGE_OUTPUT,
    PDF_INPUT, PDF_OUTPUT, SVG_INPUT, SVG_OUTPUT, VIDEO_INPUT, VIDEO_OUTPUT,
};
use crate::models::response::{FormatSupport, FormatsResponse, HealthResponse};

verus! {

/// What the health routes know of the server.
#[derive(Clone, Copy, Debug)]
pub struct HealthState {
    pub max_file_size_mb: u64,
}

/// The state of the service.
pub fn health_check(version: &str, ffmpeg_available: bool) -> (r: HealthResponse)
    ensures
        r.status@ == "ok"@,
        r.version@ == version@,
        r.ffmpeg_available == ffmpeg_available,
{
    HealthResponse { status: "ok".to_string(), version: version.to_string(), ffmpeg_available }
}

fn owned(list: &[&'static str]) -> (r: Vec<String>)
    ensures
        r.deep_view() == names(list@),
{
    let mut out: Vec<String> = Vec::new();
    let mut i: usize = 0;
    while i < list.len()
        invariant
            i <= list.len(),
            out.deep_view() == names(list@).take(i as int),
        decreases list.len() - i,
    {
        let ghost before = out.deep_view();
        out.push(list[i].to_string());
        assert(out.deep_view() =~= before.push(list@[i as int]@));
        assert(names(list@).take(i + 1) =~= names(list@).take(i as int).push(list@[i as int]@));
        i += 1;
    }
    assert(names(list@).take(i as int) =~= names(list@));
    out
}

/// The formats of a kind of conversion: the given lists where its tools are
/// installed, none otherwise.
pub open spec fn supports(
    support: FormatSupport,
    input: Seq<&'static str>,
    output: Seq<&'static str>,
    available: bool,
) -> bool {
    &&& support.available == available
    &&& support.input.deep_view() == if available {
        names(input)
    } else {
        Seq::empty()
    }
    &&& support.output.deep_view() == if available {
        names(output)
    } else {
        Seq::empty()
    }
}

fn support(input: &[&'static str], output: &[&'static str], available: bool) -> (r: FormatSupport)
    ensures
        supports(r, input@, output@, available),
{
    if available {
        FormatSupport { input: owned(input), output: owned(output), available }
    } else {
        let none_in: Vec<String> = Vec::new();
        let none_out: Vec<String> = Vec::new();
        assert(none_in.deep_view() =~= Seq::<Seq<char>>::empty());
        assert(none_out.deep_view() =~= Seq::<Seq<char>>::empty());
        FormatSupport { input: none_in, output: none_out, available }
    }
}

/// The formats that the service converts. Images, vector images and
/// documents are always converted; audio and video where `ffmpeg` is
/// installed; PDF where `pdftoppm` is.
pub fn get_formats(state: &HealthState, ffmpeg_available: bool, pdftoppm_available: bool) -> (r:
    FormatsResponse)
    ensures
        supports(r.image, IMAGE_INPUT@, IMAGE_OUTPUT@, true),
        supports(r.svg, SVG_INPUT@, SVG_OUTPUT@, true),
        supports(r.document, DOCUMENT_INPUT@, DOCUMENT_OUTPUT@, true),
        supports(r.audio, AUDIO_INPUT@, AUDIO_OUTPUT@, ffmpeg_available),
        supports(r.video, VIDEO_INPUT@, VIDEO_OUTPUT@, ffmpeg_available),
        supports(r.pdf, PDF_INPUT@, PDF_OUTPUT@, pdftoppm_available),
        r.max_file_size_mb == state.max_file_size_mb,
{
    FormatsResponse {
        image: support(&IMAGE_INPUT, &IMAGE_OUTPUT, true),
        svg: support(&SVG_INPUT, &SVG_OUTPUT, true),
        document: support(&DOCUMENT_INPUT, &DOCUMENT_OUTPUT, true),
        audio: support(&AUDIO_INPUT, &AUDIO_OUTPUT, ffmpeg_available),
        video: support(&VIDEO_INPUT, &VIDEO_OUTPUT, ffmpeg_available),
        pdf: support(&PDF_INPUT, &PDF_OUTPUT, pdftoppm_available),
        max_file_size_mb: state.max_file_size_mb,
    }
}

} // verus!
