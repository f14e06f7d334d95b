//! The section-aware field extractor: one pass over the input lines,
//! holding a current-section state and a one-line skip flag, routing each
//! line to the active section's field matcher.
//!
//! The whole pass is specified by `spec_parse_lines`, a fold of the
//! per-line transition `spec_line_step` over the lines; every executable
//! piece is proved against the corresponding spec function.

use vstd::prelude::*;

verus! {

use crate::fields::Duration;
use crate::fields::Encoded;
use crate::fields::EncodedV;
use crate::fields::GeneralInformation;
use crate::fields::GeneralV;
use crate::fields::MediaInformation;
use crate::fields::MediaV;
use crate::fields::Nfo;
use crate::fields::NfoV;
use crate::fields::Section;
use crate::fields::Source;
use crate::fields::SourceV;
use crate::fields::Warning;
use crate::fields::general_init;
use crate::fields::media_init;
use crate::words::aux_string;
use crate::words::dec_value;
use crate::words::is_dec_numeral_upto;
use crate::words::join_words;
use crate::words::parse_u16;
use crate::words::parse_u32;
use crate::words::parse_u64;
use crate::words::str_eq;
use crate::words::unicode_words_of;
use crate::words::unicode_words_vec;
use crate::words::words_view;
use vstd::slice::slice_subrange;
use vstd::string::StringExecFns;

/// The marker appended after every description line in place of a newline:
/// the literal two characters `/n`, one consistent separator for the whole
/// accumulated description.
pub open spec fn line_marker() -> Seq<char> {
    "/n"@
}

/// The full state of the extractor between two lines.
#[verifier::ext_equal]
pub ghost struct ParserV {
    pub section: Section,
    pub skip: bool,
    pub general: GeneralV,
    pub media: MediaV,
    pub description: Seq<char>,
    pub warnings: Seq<Warning>,
}

/// The state before any line has been read: no section, nothing skipped,
/// every field absent.
pub open spec fn parser_init() -> ParserV {
    ParserV {
        section: Section::Preamble,
        skip: false,
        general: general_init(),
        media: media_init(),
        description: Seq::empty(),
        warnings: Seq::empty(),
    }
}

/// The section whose header the tokens spell, if any: an exact match of the
/// first two tokens against one of the three known header phrases.
pub open spec fn header_of(ws: Seq<Seq<char>>) -> Option<Section> {
    if ws.len() >= 2 {
        if ws[0] == "General"@ && ws[1] == "Information"@ {
            Some(Section::General)
        } else if ws[0] == "Media"@ && ws[1] == "Information"@ {
            Some(Section::Media)
        } else if ws[0] == "Book"@ && ws[1] == "Description"@ {
            Some(Section::Description)
        } else {
            None
        }
    } else {
        None
    }
}

/// The value of the duration component at token offset `i`, or zero where
/// the token is absent or is no `u64` numeral.
pub open spec fn duration_component(ws: Seq<Seq<char>>, i: int) -> u64 {
    if i < ws.len() && is_dec_numeral_upto(ws[i], u64::MAX as int) {
        dec_value(ws[i]) as u64
    } else {
        0
    }
}

/// The duration a `Duration` line spells: hours at token offset 1, minutes
/// at 3, seconds at 5; a missing or malformed component contributes zero.
pub open spec fn spec_duration_of(ws: Seq<Seq<char>>) -> Duration {
    Duration {
        hours: duration_component(ws, 1),
        minutes: duration_component(ws, 3),
        seconds: duration_component(ws, 5),
    }
}

/// One general-section line: dispatch on the first token, set the matched
/// field only if it is still unset (first match wins), and record a warning
/// for a chapter count that does not parse.
pub open spec fn general_route(g: GeneralV, warns: Seq<Warning>, ws: Seq<Seq<char>>) -> (
    GeneralV,
    Seq<Warning>,
) {
    if ws[0] == "Title"@ {
        (
            if g.title is None {
                GeneralV { title: Some(join_words(ws.skip(1))), ..g }
            } else {
                g
            },
            warns,
        )
    } else if ws[0] == "Author"@ {
        (
            if g.author is None {
                GeneralV { author: Some(join_words(ws.skip(1))), ..g }
            } else {
                g
            },
            warns,
        )
    } else if ws[0] == "Read"@ {
        (
            if ws[1] == "By"@ && g.read_by is None {
                GeneralV { read_by: Some(join_words(ws.skip(2))), ..g }
            } else {
                g
            },
            warns,
        )
    } else if ws[0] == "Copyright"@ {
        (
            if g.copyright is None {
                GeneralV { copyright: Some(join_words(ws.skip(1))), ..g }
            } else {
                g
            },
            warns,
        )
    } else if ws[0] == "Genre"@ {
        (
            if g.genre is None {
                GeneralV { genre: Some(join_words(ws.skip(1))), ..g }
            } else {
                g
            },
            warns,
        )
    } else if ws[0] == "Publisher"@ {
        (
            if g.publisher is None {
                GeneralV { publisher: Some(join_words(ws.skip(1))), ..g }
            } else {
                g
            },
            warns,
        )
    } else if ws[0] == "Duration"@ {
        (
            if g.duration is None && !spec_duration_of(ws).spec_is_zero() {
                GeneralV { duration: Some(spec_duration_of(ws)), ..g }
            } else {
                g
            },
            warns,
        )
    } else if ws[0] == "Chapters"@ {
        if g.chapters is None {
            if is_dec_numeral_upto(join_words(ws.skip(1)), u32::MAX as int) {
                (GeneralV { chapters: Some(dec_value(join_words(ws.skip(1))) as u32), ..g }, warns)
            } else {
                (g, warns.push(Warning::ChapterCount))
            }
        } else {
            (g, warns)
        }
    } else if ws[0] == "Unabridged"@ {
        (
            if g.unabridged is None {
                if ws[1] == "Yes"@ {
                    GeneralV { unabridged: Some(true), ..g }
                } else if ws[1] == "No"@ {
                    GeneralV { unabridged: Some(false), ..g }
                } else {
                    g
                }
            } else {
                g
            },
            warns,
        )
    } else {
        (g, warns)
    }
}

/// One media-section line: two-token dispatch into the source record, the
/// encode record, or the chapter notes; first match wins for every field,
/// the encoded sample rate included, and a channel count that does not
/// parse records a warning. A `Lossless` line, `Yes` or `No`, decides the
/// encoded record's lossless flag and nothing else.
pub open spec fn media_route(m: MediaV, warns: Seq<Warning>, ws: Seq<Seq<char>>) -> (
    MediaV,
    Seq<Warning>,
) {
    if ws[0] == "Source"@ {
        if ws[1] == "Format"@ {
            (
                if m.source.format is None {
                    MediaV {
                        source: SourceV { format: Some(join_words(ws.skip(2))), ..m.source },
                        ..m
                    }
                } else {
                    m
                },
                warns,
            )
        } else if ws[1] == "Sample"@ {
            (
                if ws.len() >= 3 && ws[2] == "Rate"@ && m.source.sample_rate is None {
                    MediaV {
                        source: SourceV { sample_rate: Some(join_words(ws.skip(3))), ..m.source },
                        ..m
                    }
                } else {
                    m
                },
                warns,
            )
        } else if ws[1] == "Channels"@ {
            if m.source.channels is None {
                if is_dec_numeral_upto(join_words(ws.skip(2)), u16::MAX as int) {
                    (
                        MediaV {
                            source: SourceV {
                                channels: Some(dec_value(join_words(ws.skip(2))) as u16),
                                ..m.source
                            },
                            ..m
                        },
                        warns,
                    )
                } else {
                    (m, warns.push(Warning::SourceChannels))
                }
            } else {
                (m, warns)
            }
        } else if ws[1] == "Bitrate"@ {
            (
                if m.source.bitrate is None {
                    MediaV {
                        source: SourceV { bitrate: Some(join_words(ws.skip(2))), ..m.source },
                        ..m
                    }
                } else {
                    m
                },
                warns,
            )
        } else {
            (m, warns)
        }
    } else if ws[0] == "Lossless"@ {
        (
            if m.encode.lossless_encode is None {
                if ws[1] == "Yes"@ {
                    MediaV {
                        encode: EncodedV { lossless_encode: Some(true), ..m.encode },
                        ..m
                    }
                } else if ws[1] == "No"@ {
                    MediaV {
                        encode: EncodedV { lossless_encode: Some(false), ..m.encode },
                        ..m
                    }
                } else {
                    m
                }
            } else {
                m
            },
            warns,
        )
    } else if ws[0] == "Encoded"@ {
        if ws[1] == "Codec"@ {
            (
                if m.encode.codec is None {
                    MediaV {
                        encode: EncodedV { codec: Some(join_words(ws.skip(2))), ..m.encode },
                        ..m
                    }
                } else {
                    m
                },
                warns,
            )
        } else if ws[1] == "Sample"@ {
            (
                if ws.len() >= 3 && ws[2] == "Rate"@ && m.encode.sample_rate is None {
                    MediaV {
                        encode: EncodedV { sample_rate: Some(join_words(ws.skip(3))), ..m.encode },
                        ..m
                    }
                } else {
                    m
                },
                warns,
            )
        } else if ws[1] == "Channels"@ {
            if m.encode.channels is None {
                if is_dec_numeral_upto(join_words(ws.skip(2)), u16::MAX as int) {
                    (
                        MediaV {
                            encode: EncodedV {
                                channels: Some(dec_value(join_words(ws.skip(2))) as u16),
                                ..m.encode
                            },
                            ..m
                        },
                        warns,
                    )
                } else {
                    (m, warns.push(Warning::EncodedChannels))
                }
            } else {
                (m, warns)
            }
        } else if ws[1] == "Bitrate"@ {
            (
                if m.encode.bitrate is None {
                    MediaV {
                        encode: EncodedV { bitrate: Some(join_words(ws.skip(2))), ..m.encode },
                        ..m
                    }
                } else {
                    m
                },
                warns,
            )
        } else {
            (m, warns)
        }
    } else if ws[0] == "Chapter"@ {
        (
            if ws[1] == "Adjust"@ {
                if m.chapter_adjust is None {
                    MediaV { chapter_adjust: Some(join_words(ws.skip(2))), ..m }
                } else {
                    m
                }
            } else if ws[1] == "Rename"@ {
                if m.chapter_rename is None {
                    MediaV { chapter_rename: Some(join_words(ws.skip(2))), ..m }
                } else {
                    m
                }
            } else {
                m
            },
            warns,
        )
    } else {
        (m, warns)
    }
}

/// One line of the pass, with the line's tokens given separately: consume a
/// pending skip, else switch on an exact header match, else append to the
/// description when inside it, else drop a line of fewer than two tokens,
/// else run the active section's field matcher.
pub open spec fn spec_route(s: ParserV, line: Seq<char>, ws: Seq<Seq<char>>) -> ParserV {
    if s.skip {
        ParserV { skip: false, ..s }
    } else if header_of(ws) is Some {
        ParserV { section: header_of(ws)->Some_0, skip: true, ..s }
    } else if s.section is Description {
        ParserV { description: s.description + line + line_marker(), ..s }
    } else if ws.len() < 2 {
        s
    } else if s.section is General {
        let (g, w) = general_route(s.general, s.warnings, ws);
        ParserV { general: g, warnings: w, ..s }
    } else if s.section is Media {
        let (m, w) = media_route(s.media, s.warnings, ws);
        ParserV { media: m, warnings: w, ..s }
    } else {
        s
    }
}

/// One line of the pass, tokenized by Unicode word segmentation.
pub open spec fn spec_line_step(s: ParserV, line: Seq<char>) -> ParserV {
    spec_route(s, line, unicode_words_of(line))
}

/// The state after the whole pass: the per-line step folded over the lines,
/// starting from the initial state.
pub open spec fn spec_parse_lines(lines: Seq<Seq<char>>) -> ParserV
    decreases lines.len(),
{
    if lines.len() == 0 {
        parser_init()
    } else {
        spec_line_step(spec_parse_lines(lines.drop_last()), lines.last())
    }
}

/// The finished document for a final state: the two records as they stand,
/// and the description only if any line was accumulated.
pub open spec fn finalize_doc(s: ParserV) -> NfoV {
    NfoV {
        general: s.general,
        media: s.media,
        description: if s.description.len() == 0 {
            None
        } else {
            Some(s.description)
        },
    }
}

/// Rejoins the tokens from index `start` onward into one space-separated
/// string.
fn join_from(data: &Vec<&str>, start: usize) -> (r: String)
    requires
        start <= data@.len(),
    ensures
        r@ == join_words(words_view(data@).skip(start as int)),
{
    let tail = slice_subrange(data.as_slice(), start, data.len());
    proof {
        assert(words_view(tail@) =~~= words_view(data@).skip(start as int));
    }
    aux_string(tail)
}

/// Reads the duration component at token offset `i`: the token's value as a
/// decimal numeral, or zero where it is absent or malformed.
fn duration_component_at(data: &Vec<&str>, i: usize) -> (v: u64)
    ensures
        v == duration_component(words_view(data@), i as int),
{
    if i < data.len() {
        match parse_u64(data[i]) {
            Some(v) => v,
            None => 0,
        }
    } else {
        0
    }
}

/// Reads a whole `Duration` line: hours at token offset 1, minutes at 3,
/// seconds at 5, each zero where absent or malformed.
fn read_duration(data: &Vec<&str>) -> (d: Duration)
    ensures
        d == spec_duration_of(words_view(data@)),
{
    Duration {
        hours: duration_component_at(data, 1),
        minutes: duration_component_at(data, 3),
        seconds: duration_component_at(data, 5),
    }
}

/// Applies one general-section line to the record, first match winning.
fn general_fields(general: &mut GeneralInformation, warnings: &mut Vec<Warning>, data: &Vec<&str>)
    requires
        data@.len() >= 2,
    ensures
        final(general)@ == general_route(old(general)@, old(warnings)@, words_view(data@)).0,
        final(warnings)@ == general_route(old(general)@, old(warnings)@, words_view(data@)).1,
{
    if str_eq(data[0], "Title") {
        if general.title.is_none() {
            general.title = Some(join_from(data, 1));
        }
    } else if str_eq(data[0], "Author") {
        if general.author.is_none() {
            general.author = Some(join_from(data, 1));
        }
    } else if str_eq(data[0], "Read") {
        if str_eq(data[1], "By") && general.read_by.is_none() {
            general.read_by = Some(join_from(data, 2));
        }
    } else if str_eq(data[0], "Copyright") {
        if general.copyright.is_none() {
            general.copyright = Some(join_from(data, 1));
        }
    } else if str_eq(data[0], "Genre") {
        if general.genre.is_none() {
            general.genre = Some(join_from(data, 1));
        }
    } else if str_eq(data[0], "Publisher") {
        if general.publisher.is_none() {
            general.publisher = Some(join_from(data, 1));
        }
    } else if str_eq(data[0], "Duration") {
        if general.duration.is_none() {
            let d = read_duration(data);
            if !d.is_zero() {
                general.duration = Some(d);
            }
        }
    } else if str_eq(data[0], "Chapters") {
        if general.chapters.is_none() {
            let joined = join_from(data, 1);
            match parse_u32(joined.as_str()) {
                Some(chap) => {
                    general.chapters = Some(chap);
                },
                None => {
                    warnings.push(Warning::ChapterCount);
                },
            }
        }
    } else if str_eq(data[0], "Unabridged") {
        if general.unabridged.is_none() {
            if str_eq(data[1], "Yes") {
                general.unabridged = Some(true);
            } else if str_eq(data[1], "No") {
                general.unabridged = Some(false);
            }
        }
    }
}

/// Applies one media-section line to the record, first match winning.
fn media_fields(media: &mut MediaInformation, warnings: &mut Vec<Warning>, data: &Vec<&str>)
    requires
        data@.len() >= 2,
    ensures
        final(media)@ == media_route(old(media)@, old(warnings)@, words_view(data@)).0,
        final(warnings)@ == media_route(old(media)@, old(warnings)@, words_view(data@)).1,
{
    if str_eq(data[0], "Source") {
        if str_eq(data[1], "Format") {
            if media.source.format.is_none() {
                media.source.format = Some(join_from(data, 2));
            }
        } else if str_eq(data[1], "Sample") {
            if data.len() >= 3 && str_eq(data[2], "Rate") && media.source.sample_rate.is_none() {
                media.source.sample_rate = Some(join_from(data, 3));
            }
        } else if str_eq(data[1], "Channels") {
            if media.source.channels.is_none() {
                let joined = join_from(data, 2);
                match parse_u16(joined.as_str()) {
                    Some(chan) => {
                        media.source.channels = Some(chan);
                    },
                    None => {
                        warnings.push(Warning::SourceChannels);
                    },
                }
            }
        } else if str_eq(data[1], "Bitrate") {
            if media.source.bitrate.is_none() {
                media.source.bitrate = Some(join_from(data, 2));
            }
        }
    } else if str_eq(data[0], "Lossless") {
        if media.encode.lossless_encode.is_none() {
            if str_eq(data[1], "Yes") {
                media.encode.lossless_encode = Some(true);
            } else if str_eq(data[1], "No") {
                media.encode.lossless_encode = Some(false);
            }
        }
    } else if str_eq(data[0], "Encoded") {
        if str_eq(data[1], "Codec") {
            if media.encode.codec.is_none() {
                media.encode.codec = Some(join_from(data, 2));
            }
        } else if str_eq(data[1], "Sample") {
            if data.len() >= 3 && str_eq(data[2], "Rate") && media.encode.sample_rate.is_none() {
                media.encode.sample_rate = Some(join_from(data, 3));
            }
        } else if str_eq(data[1], "Channels") {
            if media.encode.channels.is_none() {
                let joined = join_from(data, 2);
                match parse_u16(joined.as_str()) {
                    Some(chan) => {
                        media.encode.channels = Some(chan);
                    },
                    None => {
                        warnings.push(Warning::EncodedChannels);
                    },
                }
            }
        } else if str_eq(data[1], "Bitrate") {
            if media.encode.bitrate.is_none() {
                media.encode.bitrate = Some(join_from(data, 2));
            }
        }
    } else if str_eq(data[0], "Chapter") {
        if str_eq(data[1], "Adjust") {
            if media.chapter_adjust.is_none() {
                media.chapter_adjust = Some(join_from(data, 2));
            }
        } else if str_eq(data[1], "Rename") {
            if media.chapter_rename.is_none() {
                media.chapter_rename = Some(join_from(data, 2));
            }
        }
    }
}

/// The extractor's running state: feed it the lines one by one, then take
/// the finished document.
pub struct Parser {
    section: Section,
    skip: bool,
    general: GeneralInformation,
    media: MediaInformation,
    description: String,
    warnings: Vec<Warning>,
}

impl View for Parser {
    type V = ParserV;

    closed spec fn view(&self) -> ParserV {
        ParserV {
            section: self.section,
            skip: self.skip,
            general: self.general@,
            media: self.media@,
            description: self.description@,
            warnings: self.warnings@,
        }
    }
}

impl Parser {
    /// A fresh extractor in the initial state.
    pub fn new() -> (p: Parser)
        ensures
            p@ == parser_init(),
    {
        let p = Parser {
            section: Section::Preamble,
            skip: false,
            general: GeneralInformation {
                title: None,
                author: None,
                read_by: None,
                copyright: None,
                genre: None,
                publisher: None,
                duration: None,
                chapters: None,
                unabridged: None,
            },
            media: MediaInformation {
                source: Source { format: None, sample_rate: None, channels: None, bitrate: None },
                encode: Encoded {
                    lossless_encode: None,
                    codec: None,
                    sample_rate: None,
                    channels: None,
                    bitrate: None,
                },
                chapter_adjust: None,
                chapter_rename: None,
                ripper: None,
                id_tagging: None,
            },
            description: String::new(),
            warnings: Vec::new(),
        };
        proof {
            assert(p@ =~~= parser_init());
        }
        p
    }

    /// Advances the state over one line of input.
    pub fn feed_line(&mut self, line: &str)
        ensures
            final(self)@ == spec_line_step(old(self)@, line@),
    {
        if self.skip {
            self.skip = false;
            return ;
        }
        let data = unicode_words_vec(line);
        let ghost ws = unicode_words_of(line@);
        proof {
            assert(words_view(data@) == ws);
        }
        if data.len() >= 2 {
            proof {
                assert(ws[0] == data@[0]@);
                assert(ws[1] == data@[1]@);
            }
            if str_eq(data[0], "General") && str_eq(data[1], "Information") {
                self.section = Section::General;
                self.skip = true;
                return ;
            }
            if str_eq(data[0], "Media") && str_eq(data[1], "Information") {
                self.section = Section::Media;
                self.skip = true;
                return ;
            }
            if str_eq(data[0], "Book") && str_eq(data[1], "Description") {
                self.section = Section::Description;
                self.skip = true;
                return ;
            }
        }
        match self.section {
            Section::Description => {
                self.description.append(line);
                self.description.append("/n");
            },
            Section::General => {
                if data.len() >= 2 {
                    general_fields(&mut self.general, &mut self.warnings, &data);
                }
            },
            Section::Media => {
                if data.len() >= 2 {
                    media_fields(&mut self.media, &mut self.warnings, &data);
                }
            },
            Section::Preamble => {},
        }
    }

    /// Takes the finished document and the warnings collected on the way.
    pub fn finish(self) -> (r: (Nfo, Vec<Warning>))
        ensures
            r.0@ == finalize_doc(self@),
            r.1@ == self@.warnings,
    {
        let description = if self.description.as_str().is_empty() {
            None
        } else {
            Some(self.description)
        };
        (Nfo { general: self.general, media: self.media, description }, self.warnings)
    }
}

impl Nfo {
    /// Parses the lines of an NFO file in one pass and returns the document
    /// together with the diagnostics collected on the way. The result is a
    /// function of the lines alone.
    pub fn from_lines(lines: &Vec<String>) -> (r: (Nfo, Vec<Warning>))
        ensures
            r.0@ == parsed_doc(lines_view(lines@)),
            r.1@ == spec_parse_lines(lines_view(lines@)).warnings,
    {
        let ghost all = lines_view(lines@);
        let mut p = Parser::new();
        for i in 0..lines.len()
            invariant
                all == lines_view(lines@),
                p@ == spec_parse_lines(all.take(i as int)),
        {
            proof {
                assert(all.take(i + 1).drop_last() =~= all.take(i as int));
                assert(all.take(i + 1).last() == lines@[i as int]@);
            }
            p.feed_line(lines[i].as_str());
        }
        proof {
            assert(all.take(lines@.len() as int) =~= all);
        }
        p.finish()
    }
}

/// View of a vector of owned lines as a sequence of character sequences.
pub open spec fn lines_view(lines: Seq<String>) -> Seq<Seq<char>> {
    lines.map_values(|l: String| l@)
}

/// The document that a sequence of lines parses to.
pub open spec fn parsed_doc(lines: Seq<Seq<char>>) -> NfoV {
    finalize_doc(spec_parse_lines(lines))
}

} // verus!
