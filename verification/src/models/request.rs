//! What a client asks for: the kind of conversion and how urgent it is.

use vstd::prelude::*;
use crate::text::{lowercase, str_eq, to_lowercase};

verus! {

/// The category of a conversion.
#[derive(Clone, Copy, Debug, PartialEq, Eq, Structural)]
pub enum ConversionType {
    Image,
    Document,
    Audio,
    Video,
    Pdf,
}

impl ConversionType {
    /// The lowercase name of the category.
    pub open spec fn text(self) -> Seq<char> {
        match self {
            ConversionType::Image => "image"@,
            ConversionType::Document => "document"@,
            ConversionType::Audio => "audio"@,
            ConversionType::Video => "video"@,
            ConversionType::Pdf => "pdf"@,
        }
    }

    /// The category that a stored name stands for, if it is one of the five.
    pub open spec fn parsed(s: Seq<char>) -> Option<ConversionType> {
        if s == "image"@ {
            Some(ConversionType::Image)
        } else if s == "document"@ {
            Some(ConversionType::Document)
        } else if s == "audio"@ {
            Some(ConversionType::Audio)
        } else if s == "video"@ {
            Some(ConversionType::Video)
        } else if s == "pdf"@ {
            Some(ConversionType::Pdf)
        } else {
            None
        }
    }

    /// The category that a stored record is taken to have: an unknown name
    /// counts as `Image`.
    pub open spec fn of_text(s: Seq<char>) -> ConversionType {
        match Self::parsed(s) {
            Some(t) => t,
            None => ConversionType::Image,
        }
    }

    /// The five names are distinct.
    pub proof fn lemma_text_parses(self)
        ensures
            Self::parsed(self.text()) == Some(self),
            Self::of_text(self.text()) == self,
    {
        reveal_strlit("image");
        reveal_strlit("document");
        reveal_strlit("audio");
        reveal_strlit("video");
        reveal_strlit("pdf");
        assert("image"@.len() == 5);
        assert("document"@.len() == 8);
        assert("audio"@.len() == 5);
        assert("video"@.len() == 5);
        assert("pdf"@.len() == 3);
        assert("image"@[0] == 'i' && "audio"@[0] == 'a' && "video"@[0] == 'v');
    }

    /// The name of the category.
    pub fn as_str(&self) -> (r: &'static str)
        ensures
            r@ == self.text(),
    {
        match self {
            ConversionType::Image => "image",
            ConversionType::Document => "document",
            ConversionType::Audio => "audio",
            ConversionType::Video => "video",
            ConversionType::Pdf => "pdf",
        }
    }

    /// The name of the category, as an owned string.
    pub fn to_string(&self) -> (r: String)
        ensures
            r@ == self.text(),
    {
        self.as_str().to_string()
    }

    /// Reads a stored name.
    pub fn parse(s: &str) -> (r: Option<ConversionType>)
        ensures
            r == Self::parsed(s@),
    {
        if str_eq(s, "image") {
            Some(ConversionType::Image)
        } else if str_eq(s, "document") {
            Some(ConversionType::Document)
        } else if str_eq(s, "audio") {
            Some(ConversionType::Audio)
        } else if str_eq(s, "video") {
            Some(ConversionType::Video)
        } else if str_eq(s, "pdf") {
            Some(ConversionType::Pdf)
        } else {
            None
        }
    }
}

/// How urgent a job is. The priority is recorded with the job; dispatch does
/// not reorder by it.
#[derive(Clone, Copy, Debug, PartialEq, Eq, Structural)]
pub enum JobPriority {
    Low,
    Normal,
    High,
}

impl JobPriority {
    /// The lowercase name of the priority.
    pub open spec fn text(self) -> Seq<char> {
        match self {
            JobPriority::Low => "low"@,
            JobPriority::Normal => "normal"@,
            JobPriority::High => "high"@,
        }
    }

    /// The priority that a lowercase name stands for; any other name is
    /// `Normal`.
    pub open spec fn of_lowercase(s: Seq<char>) -> JobPriority {
        if s == "high"@ {
            JobPriority::High
        } else if s == "low"@ {
            JobPriority::Low
        } else {
            JobPriority::Normal
        }
    }

    /// Reads a priority without regard to case; an unknown name is `Normal`.
    pub fn from_str(s: &str) -> (r: Self)
        ensures
            r == Self::of_lowercase(lowercase(s@)),
    {
        let lower = to_lowercase(s);
        Self::from_lowercase(lower.as_str())
    }

    /// The priority that a name given in lowercase stands for; an unknown
    /// name is `Normal`.
    pub fn from_lowercase(s: &str) -> (r: Self)
        ensures
            r == Self::of_lowercase(s@),
    {
        if str_eq(s, "high") {
            JobPriority::High
        } else if str_eq(s, "low") {
            JobPriority::Low
        } else {
            JobPriority::Normal
        }
    }

    /// The name of the priority.
    pub fn as_str(&self) -> (r: &'static str)
        ensures
            r@ == self.text(),
    {
        match self {
            JobPriority::Low => "low",
            JobPriority::Normal => "normal",
            JobPriority::High => "high",
        }
    }

    /// The name of the priority, as an owned string.
    pub fn to_string(&self) -> (r: String)
        ensures
            r@ == self.text(),
    {
        self.as_str().to_string()
    }
}

impl Default for JobPriority {
    fn default() -> (r: Self)
        ensures
            r == JobPriority::Normal,
    {
        JobPriority::Normal
    }
}

/// The parameters of a direct conversion.
#[derive(Debug)]
pub struct ConvertQuery {
    /// The format to convert to.
    pub output_format: String,
    /// The quality of the output, from 1 to 100.
    pub quality: Option<u8>,
    /// The width of the output in pixels, for images.
    pub width: Option<u32>,
    /// The height of the output in pixels, for images.
    pub height: Option<u32>,
    /// Whether a resize keeps the proportions of the image.
    pub maintain_aspect_ratio: bool,
}

/// Whether a resize keeps the proportions of the image when the request does
/// not say.
pub fn default_true() -> (r: bool)
    ensures
        r,
{
    true
}

/// The parameters of a conversion of several files at once.
#[derive(Debug)]
pub struct BatchConvertRequest {
    pub output_format: String,
    pub quality: Option<u8>,
    pub width: Option<u32>,
    pub height: Option<u32>,
}

/// The parameters of a job.
#[derive(Debug)]
pub struct CreateJobRequest {
    pub output_format: String,
    pub conversion_type: ConversionType,
    pub quality: Option<u8>,
    pub width: Option<u32>,
    pub height: Option<u32>,
    /// Where to fetch the input from, in place of an upload.
    pub source_url: Option<String>,
    pub priority: JobPriority,
    /// Where to report the end of the job.
    pub webhook_url: Option<String>,
    /// How many hours the result is kept.
    pub expires_in_hours: Option<i64>,
}

/// How an image is transformed on its way.
#[derive(Clone, Copy, Debug, Default)]
pub struct ImageOptions {
    pub quality: Option<u8>,
    pub width: Option<u32>,
    pub height: Option<u32>,
    pub maintain_aspect_ratio: bool,
}

impl ImageOptions {
    /// The options that a query asks for.
    pub fn from_query(query: &ConvertQuery) -> (r: Self)
        ensures
            r.quality == query.quality,
            r.width == query.width,
            r.height == query.height,
            r.maintain_aspect_ratio == query.maintain_aspect_ratio,
    {
        ImageOptions {
            quality: query.quality,
            width: query.width,
            height: query.height,
            maintain_aspect_ratio: query.maintain_aspect_ratio,
        }
    }

    /// The options of a conversion that asks for a quality and nothing else:
    /// no resize, proportions not kept.
    pub fn with_quality(quality: Option<u8>) -> (r: Self)
        ensures
            r.quality == quality,
            r.width is None,
            r.height is None,
            !r.maintain_aspect_ratio,
    {
        ImageOptions { quality, width: None, height: None, maintain_aspect_ratio: false }
    }
}

/// The parameters of a PDF conversion.
#[derive(Debug)]
pub struct PdfConvertQuery {
    /// The format to convert to.
    pub output_format: String,
    /// The page to convert, unless all pages are asked for.
    pub page: u32,
    /// The resolution in dots per inch.
    pub dpi: u32,
    /// Whether all pages are converted and returned as one archive.
    pub all_pages: bool,
}

/// The page that a PDF conversion takes when the request names none.
pub fn default_page() -> (r: u32)
    ensures
        r == 1,
{
    1
}

/// The resolution of a PDF conversion when the request names none.
pub fn default_dpi() -> (r: u32)
    ensures
        r == 150,
{
    150
}

} // verus!
