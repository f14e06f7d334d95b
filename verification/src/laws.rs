//! General properties of the extractor, stated and proved once over the
//! spec-level transition functions.

use vstd::prelude::*;

verus! {

use crate::fields::NfoV;
use crate::fields::Section;
use crate::parser::ParserV;
use crate::parser::finalize_doc;
use crate::parser::header_of;
use crate::parser::line_marker;
use crate::parser::spec_parse_lines;
use crate::parser::spec_route;

/// First match wins: a field that is already set is never changed by a
/// later line, whatever that line holds. This covers every scalar field of
/// both records, the encoded sample rate included.
pub proof fn lemma_first_match_wins(s: ParserV, line: Seq<char>, ws: Seq<Seq<char>>)
    ensures
        s.general.title is Some ==> spec_route(s, line, ws).general.title == s.general.title,
        s.general.author is Some ==> spec_route(s, line, ws).general.author == s.general.author,
        s.general.read_by is Some ==> spec_route(s, line, ws).general.read_by == s.general.read_by,
        s.general.copyright is Some ==> spec_route(s, line, ws).general.copyright
            == s.general.copyright,
        s.general.genre is Some ==> spec_route(s, line, ws).general.genre == s.general.genre,
        s.general.publisher is Some ==> spec_route(s, line, ws).general.publisher
            == s.general.publisher,
        s.general.duration is Some ==> spec_route(s, line, ws).general.duration
            == s.general.duration,
        s.general.chapters is Some ==> spec_route(s, line, ws).general.chapters
            == s.general.chapters,
        s.general.unabridged is Some ==> spec_route(s, line, ws).general.unabridged
            == s.general.unabridged,
        s.media.source.format is Some ==> spec_route(s, line, ws).media.source.format
            == s.media.source.format,
        s.media.source.sample_rate is Some ==> spec_route(s, line, ws).media.source.sample_rate
            == s.media.source.sample_rate,
        s.media.source.channels is Some ==> spec_route(s, line, ws).media.source.channels
            == s.media.source.channels,
        s.media.source.bitrate is Some ==> spec_route(s, line, ws).media.source.bitrate
            == s.media.source.bitrate,
        s.media.encode.lossless_encode is Some ==> spec_route(
            s,
            line,
            ws,
        ).media.encode.lossless_encode == s.media.encode.lossless_encode,
        s.media.encode.codec is Some ==> spec_route(s, line, ws).media.encode.codec
            == s.media.encode.codec,
        s.media.encode.sample_rate is Some ==> spec_route(s, line, ws).media.encode.sample_rate
            == s.media.encode.sample_rate,
        s.media.encode.channels is Some ==> spec_route(s, line, ws).media.encode.channels
            == s.media.encode.channels,
        s.media.encode.bitrate is Some ==> spec_route(s, line, ws).media.encode.bitrate
            == s.media.encode.bitrate,
        s.media.chapter_adjust is Some ==> spec_route(s, line, ws).media.chapter_adjust
            == s.media.chapter_adjust,
        s.media.chapter_rename is Some ==> spec_route(s, line, ws).media.chapter_rename
            == s.media.chapter_rename,
{
}

/// A line of fewer than two tokens met inside the General or Media section
/// changes nothing: no field, no section, no warning. (A pending skip flag
/// consumes the line first, so none is pending here.)
pub proof fn lemma_short_line_skipped(s: ParserV, line: Seq<char>, ws: Seq<Seq<char>>)
    requires
        !s.skip,
        ws.len() < 2,
        (s.section == Section::General || s.section == Section::Media),
    ensures
        (spec_route(s, line, ws) == s),
{
}

/// Inside the description section every line that is no section header is
/// appended verbatim, followed by the literal line marker; nothing else of
/// the state changes.
pub proof fn lemma_description_appends(s: ParserV, line: Seq<char>, ws: Seq<Seq<char>>)
    requires
        !s.skip,
        s.section == Section::Description,
        header_of(ws) is None,
    ensures
        spec_route(s, line, ws).description == s.description + line + line_marker(),
        (spec_route(s, line, ws) == ParserV {
            description: s.description + line + line_marker(),
            ..s
        }),
{
}

/// Parsing is deterministic: any two documents that the contract of the
/// parse allows for the same lines are equal, so parsing the same file
/// twice yields structurally equal results.
pub proof fn lemma_parse_deterministic(lines: Seq<Seq<char>>, r1: NfoV, r2: NfoV)
    requires
        r1 == finalize_doc(spec_parse_lines(lines)),
        r2 == finalize_doc(spec_parse_lines(lines)),
    ensures
        r1 == r2,
{
}

} // verus!
