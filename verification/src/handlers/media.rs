//! The `ffmpeg` command lines of the audio and video conversions.

use vstd::prelude::*;
use crate::error::{AppError, AppErrorView};
use crate::text::{decimal, i64_to_string, lowercase, str_eq, to_lowercase};

verus! {

/// The text with which a conversion is refused where `ffmpeg` is missing.
pub open spec fn ffmpeg_missing_text() -> Seq<char> {
    "FFmpeg non e' installato nel sistema"@
}

/// The quality arguments of an audio conversion to a format given in
/// lowercase: a variable bit rate for `mp3` (2 by default) and `ogg` (5 by
/// default), the highest compression for `flac`, none for any other format.
pub open spec fn audio_quality_args(format: Seq<char>, quality: Option<u8>) -> Seq<Seq<char>> {
    if format == "mp3"@ {
        seq!["-q:a"@, decimal(
            match quality {
                Some(q) => q as int,
                None => 2,
            },
        )]
    } else if format == "ogg"@ {
        seq!["-q:a"@, decimal(
            match quality {
                Some(q) => q as int,
                None => 5,
            },
        )]
    } else if format == "flac"@ {
        seq!["-compression_level"@, "8"@]
    } else {
        Seq::empty()
    }
}

/// The constant rate factor of an `mp4` conversion: 51 for quality 0 down to 0
/// for quality 100, 23 by default.
pub open spec fn mp4_crf(quality: Option<u8>) -> int {
    match quality {
        Some(q) => 51 - (q * 51) / 100,
        None => 23,
    }
}

/// The constant rate factor of a `webm` conversion: 63 for quality 0 down to 0
/// for quality 100, 30 by default.
pub open spec fn webm_crf(quality: Option<u8>) -> int {
    match quality {
        Some(q) => 63 - (q * 63) / 100,
        None => 30,
    }
}

/// The codec arguments of a video conversion to a format given in lowercase.
pub open spec fn video_format_args(format: Seq<char>, quality: Option<u8>) -> Seq<Seq<char>> {
    if format == "mp4"@ {
        seq!["-c:v"@, "libx264"@, "-crf"@, decimal(mp4_crf(quality)), "-c:a"@, "aac"@]
    } else if format == "webm"@ {
        seq![
            "-c:v"@,
            "libvpx-vp9"@,
            "-crf"@,
            decimal(webm_crf(quality)),
            "-b:v"@,
            "0"@,
            "-c:a"@,
            "libopus"@,
        ]
    } else if format == "avi"@ {
        seq!["-c:v"@, "mpeg4"@, "-c:a"@, "mp3"@]
    } else if format == "gif"@ {
        seq!["-vf"@, "fps=10,scale=320:-1:flags=lanczos"@, "-loop"@, "0"@]
    } else {
        Seq::empty()
    }
}

/// A command line that overwrites the output, reads the input, applies the
/// given arguments and writes the output.
pub open spec fn ffmpeg_args(
    input_path: Seq<char>,
    middle: Seq<Seq<char>>,
    output_path: Seq<char>,
) -> Seq<Seq<char>> {
    seq!["-y"@, "-i"@, input_path] + middle + seq![output_path]
}

fn command_line(input_path: &str, middle: Vec<String>, output_path: &str) -> (r: Vec<String>)
    ensures
        r.deep_view() == ffmpeg_args(input_path@, middle.deep_view(), output_path@),
{
    let mut args: Vec<String> = Vec::new();
    args.push("-y".to_string());
    args.push("-i".to_string());
    args.push(input_path.to_string());
    let ghost head = args.deep_view();
    assert(head =~= seq!["-y"@, "-i"@, input_path@]);
    let mut i: usize = 0;
    while i < middle.len()
        invariant
            i <= middle.len(),
            args.deep_view() == head + middle.deep_view().take(i as int),
        decreases middle.len() - i,
    {
        let ghost before = args.deep_view();
        args.push(middle[i].clone());
        assert(middle.deep_view()[i as int] == middle[i as int]@);
        assert(args.deep_view() =~= before.push(middle[i as int]@));
        assert(middle.deep_view().take(i + 1) =~= middle.deep_view().take(i as int).push(
            middle[i as int]@,
        ));
        i += 1;
    }
    assert(middle.deep_view().take(i as int) =~= middle.deep_view());
    args.push(output_path.to_string());
    assert(args.deep_view() =~= ffmpeg_args(input_path@, middle.deep_view(), output_path@));
    args
}

/// The `ffmpeg` command line that converts an audio file, or the refusal where
/// `ffmpeg` is not available.
pub fn convert_audio_file(
    input_path: &str,
    output_path: &str,
    output_format: &str,
    quality: Option<u8>,
    ffmpeg_available: bool,
) -> (r: Result<Vec<String>, AppError>)
    ensures
        ffmpeg_available ==> (r matches Ok(args) && args.deep_view() == ffmpeg_args(
            input_path@,
            audio_quality_args(lowercase(output_format@), quality),
            output_path@,
        )),
        !ffmpeg_available ==> (r matches Err(e) && e@ == AppErrorView::FfmpegError(
            ffmpeg_missing_text(),
        )),
{
    if !ffmpeg_available {
        return Err(AppError::FfmpegError("FFmpeg non e' installato nel sistema".to_string()));
    }
    let format = to_lowercase(output_format);
    let mut middle: Vec<String> = Vec::new();
    if str_eq(format.as_str(), "mp3") {
        let q: u8 = match quality {
            Some(q) => q,
            None => 2,
        };
        middle.push("-q:a".to_string());
        middle.push(i64_to_string(q as i64));
    } else if str_eq(format.as_str(), "ogg") {
        let q: u8 = match quality {
            Some(q) => q,
            None => 5,
        };
        middle.push("-q:a".to_string());
        middle.push(i64_to_string(q as i64));
    } else if str_eq(format.as_str(), "flac") {
        middle.push("-compression_level".to_string());
        middle.push("8".to_string());
    }
    assert(middle.deep_view() =~= audio_quality_args(lowercase(output_format@), quality));
    Ok(command_line(input_path, middle, output_path))
}

/// The `ffmpeg` command line that converts a video file, or the refusal where
/// `ffmpeg` is not available.
pub fn convert_video_file(
    input_path: &str,
    output_path: &str,
    output_format: &str,
    quality: Option<u8>,
    ffmpeg_available: bool,
) -> (r: Result<Vec<String>, AppError>)
    ensures
        ffmpeg_available ==> (r matches Ok(args) && args.deep_view() == ffmpeg_args(
            input_path@,
            video_format_args(lowercase(output_format@), quality),
            output_path@,
        )),
        !ffmpeg_available ==> (r matches Err(e) && e@ == AppErrorView::FfmpegError(
            ffmpeg_missing_text(),
        )),
{
    if !ffmpeg_available {
        return Err(AppError::FfmpegError("FFmpeg non e' installato nel sistema".to_string()));
    }
    let format = to_lowercase(output_format);
    let mut middle: Vec<String> = Vec::new();
    if str_eq(format.as_str(), "mp4") {
        let crf: i64 = match quality {
            Some(q) => 51 - ((q as i64) * 51) / 100,
            None => 23,
        };
        middle.push("-c:v".to_string());
        middle.push("libx264".to_string());
        middle.push("-crf".to_string());
        middle.push(i64_to_string(crf));
        middle.push("-c:a".to_string());
        middle.push("aac".to_string());
    } else if str_eq(format.as_str(), "webm") {
        let crf: i64 = match quality {
            Some(q) => 63 - ((q as i64) * 63) / 100,
            None => 30,
        };
        middle.push("-c:v".to_string());
        middle.push("libvpx-vp9".to_string());
        middle.push("-crf".to_string());
        middle.push(i64_to_string(crf));
        middle.push("-b:v".to_string());
        middle.push("0".to_string());
        middle.push("-c:a".to_string());
        middle.push("libopus".to_string());
    } else if str_eq(format.as_str(), "avi") {
        middle.push("-c:v".to_string());
        middle.push("mpeg4".to_string());
        middle.push("-c:a".to_string());
        middle.push("mp3".to_string());
    } else if str_eq(format.as_str(), "gif") {
        middle.push("-vf".to_string());
        middle.push("fps=10,scale=320:-1:flags=lanczos".to_string());
        middle.push("-loop".to_string());
        middle.push("0".to_string());
    }
    assert(middle.deep_view() =~= video_format_args(lowercase(output_format@), quality));
    Ok(command_line(input_path, middle, output_path))
}

} // verus!
