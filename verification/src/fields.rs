//! The parsed document model: the three sub-records of an NFO file, a
//! decomposed duration, the section states, and the parse warnings, together
//! with their mathematical views.

use vstd::prelude::*;

verus! {

/// A duration decomposed into hours, minutes and seconds, as an NFO
/// `Duration` line writes it. The components are stored as read; they are
/// not normalized (90 minutes stays 90 minutes).
#[derive(Debug, Default, Clone, Copy, PartialEq, Eq, Structural)]
pub struct Duration {
    pub hours: u64,
    pub minutes: u64,
    pub seconds: u64,
}

impl Duration {
    /// All three components are zero.
    pub open spec fn spec_is_zero(self) -> bool {
        self.hours == 0 && self.minutes == 0 && self.seconds == 0
    }

    /// Returns whether all three components are zero.
    pub fn is_zero(&self) -> (r: bool)
        ensures
            r == self.spec_is_zero(),
    {
        self.hours == 0 && self.minutes == 0 && self.seconds == 0
    }
}

/// The general-information record: bibliographic fields of the audiobook.
/// Every field is optional and set at most once per parse.
#[derive(Debug, Default, Clone, PartialEq, Eq)]
pub struct GeneralInformation {
    pub title: Option<String>,
    pub author: Option<String>,
    pub read_by: Option<String>,
    pub copyright: Option<String>,
    pub genre: Option<String>,
    pub publisher: Option<String>,
    pub duration: Option<Duration>,
    pub chapters: Option<u32>,
    pub unabridged: Option<bool>,
}

/// The media-information record: source and encoding parameters plus
/// free-standing tool notes.
#[derive(Debug, Default, Clone, PartialEq, Eq)]
pub struct MediaInformation {
    pub source: Source,
    pub encode: Encoded,
    pub chapter_adjust: Option<String>,
    pub chapter_rename: Option<String>,
    pub ripper: Option<String>,
    pub id_tagging: Option<String>,
}

/// Parameters of the source medium.
#[derive(Debug, Default, Clone, PartialEq, Eq)]
pub struct Source {
    pub format: Option<String>,
    pub sample_rate: Option<String>,
    pub channels: Option<u16>,
    pub bitrate: Option<String>,
}

/// Parameters of the encoded result.
#[derive(Debug, Default, Clone, PartialEq, Eq)]
pub struct Encoded {
    pub lossless_encode: Option<bool>,
    pub codec: Option<String>,
    pub sample_rate: Option<String>,
    pub channels: Option<u16>,
    pub bitrate: Option<String>,
}

/// The whole parsed document: one record per section, immutable once built.
#[derive(Debug, Default, Clone, PartialEq, Eq)]
pub struct Nfo {
    pub general: GeneralInformation,
    pub media: MediaInformation,
    pub description: Option<String>,
}

/// The section a line belongs to: the most recently seen section header
/// decides it, and before any header the line is preamble.
#[derive(Debug, Clone, Copy, PartialEq, Eq, Structural)]
pub enum Section {
    Preamble,
    General,
    Media,
    Description,
}

/// A diagnostic of a recognized label whose numeric content did not parse;
/// the field stays unset and the parse goes on.
#[derive(Debug, Clone, Copy, PartialEq, Eq, Structural)]
pub enum Warning {
    ChapterCount,
    SourceChannels,
    EncodedChannels,
}

/// Mathematical view of an optional owned string.
pub open spec fn opt_str_view(o: Option<String>) -> Option<Seq<char>> {
    match o {
        Some(s) => Some(s@),
        None => None,
    }
}

/// View of `GeneralInformation`: each string field as a character sequence.
#[verifier::ext_equal]
pub ghost struct GeneralV {
    pub title: Option<Seq<char>>,
    pub author: Option<Seq<char>>,
    pub read_by: Option<Seq<char>>,
    pub copyright: Option<Seq<char>>,
    pub genre: Option<Seq<char>>,
    pub publisher: Option<Seq<char>>,
    pub duration: Option<Duration>,
    pub chapters: Option<u32>,
    pub unabridged: Option<bool>,
}

/// View of `Source`.
#[verifier::ext_equal]
pub ghost struct SourceV {
    pub format: Option<Seq<char>>,
    pub sample_rate: Option<Seq<char>>,
    pub channels: Option<u16>,
    pub bitrate: Option<Seq<char>>,
}

/// View of `Encoded`.
#[verifier::ext_equal]
pub ghost struct EncodedV {
    pub lossless_encode: Option<bool>,
    pub codec: Option<Seq<char>>,
    pub sample_rate: Option<Seq<char>>,
    pub channels: Option<u16>,
    pub bitrate: Option<Seq<char>>,
}

/// View of `MediaInformation`.
#[verifier::ext_equal]
pub ghost struct MediaV {
    pub source: SourceV,
    pub encode: EncodedV,
    pub chapter_adjust: Option<Seq<char>>,
    pub chapter_rename: Option<Seq<char>>,
    pub ripper: Option<Seq<char>>,
    pub id_tagging: Option<Seq<char>>,
}

/// View of `Nfo`.
#[verifier::ext_equal]
pub ghost struct NfoV {
    pub general: GeneralV,
    pub media: MediaV,
    pub description: Option<Seq<char>>,
}

impl View for GeneralInformation {
    type V = GeneralV;

    open spec fn view(&self) -> GeneralV {
        GeneralV {
            title: opt_str_view(self.title),
            author: opt_str_view(self.author),
            read_by: opt_str_view(self.read_by),
            copyright: opt_str_view(self.copyright),
            genre: opt_str_view(self.genre),
            publisher: opt_str_view(self.publisher),
            duration: self.duration,
            chapters: self.chapters,
            unabridged: self.unabridged,
        }
    }
}

impl View for Source {
    type V = SourceV;

    open spec fn view(&self) -> SourceV {
        SourceV {
            format: opt_str_view(self.format),
            sample_rate: opt_str_view(self.sample_rate),
            channels: self.channels,
            bitrate: opt_str_view(self.bitrate),
        }
    }
}

impl View for Encoded {
    type V = EncodedV;

    open spec fn view(&self) -> EncodedV {
        EncodedV {
            lossless_encode: self.lossless_encode,
            codec: opt_str_view(self.codec),
            sample_rate: opt_str_view(self.sample_rate),
            channels: self.channels,
            bitrate: opt_str_view(self.bitrate),
        }
    }
}

impl View for MediaInformation {
    type V = MediaV;

    open spec fn view(&self) -> MediaV {
        MediaV {
            source: self.source@,
            encode: self.encode@,
            chapter_adjust: opt_str_view(self.chapter_adjust),
            chapter_rename: opt_str_view(self.chapter_rename),
            ripper: opt_str_view(self.ripper),
            id_tagging: opt_str_view(self.id_tagging),
        }
    }
}

impl View for Nfo {
    type V = NfoV;

    open spec fn view(&self) -> NfoV {
        NfoV {
            general: self.general@,
            media: self.media@,
            description: opt_str_view(self.description),
        }
    }
}

/// The view of a freshly constructed, all-absent `GeneralInformation`.
pub open spec fn general_init() -> GeneralV {
    GeneralV {
        title: None,
        author: None,
        read_by: None,
        copyright: None,
        genre: None,
        publisher: None,
        duration: None,
        chapters: None,
        unabridged: None,
    }
}

/// The view of a freshly constructed, all-absent `MediaInformation`.
pub open spec fn media_init() -> MediaV {
    MediaV {
        source: SourceV { format: None, sample_rate: None, channels: None, bitrate: None },
        encode: EncodedV {
            lossless_encode: None,
            codec: None,
            sample_rate: None,
            channels: None,
            bitrate: None,
        },
        chapter_adjust: None,
        chapter_rename: None,
        ripper: None,
        id_tagging: None,
    }
}

} // verus!
