use nfo::aux_string;
use nfo::Duration;
use nfo::Nfo;
use nfo::Warning;

fn parse(lines: &[&str]) -> (Nfo, Vec<Warning>) {
    let v: Vec<String> = lines.iter().map(|s| s.to_string()).collect();
    Nfo::from_lines(&v)
}

fn full_file() -> Vec<&'static str> {
    vec![
        "Some preamble noise here",
        "General Information",
        "===================",
        "Title: War of Winds",
        "Author: Some Writer",
        "Read By: Jane Doe",
        "Copyright: 2020 Publisher Inc",
        "Genre: Epic Fantasy",
        "Publisher: Audio House",
        "Duration: 01 hours 30 minutes 00 seconds",
        "Chapters: 12",
        "Unabridged: Yes",
        "",
        "Media Information",
        "=================",
        "Source Format: CD",
        "Source Sample Rate: 44100 Hz",
        "Source Channels: 2",
        "Source Bitrate: 1411 kbps",
        "Lossless: Yes",
        "Encoded Codec: AAC",
        "Encoded Sample Rate: 22050 Hz",
        "Encoded Channels: 2",
        "Encoded Bitrate: 64 kbps",
        "Chapter Adjust: yes",
        "Chapter Rename: numbered",
        "",
        "Book Description",
        "================",
        "Line one.",
        "Line two.",
    ]
}

#[test]
fn full_parse() {
    let (doc, warnings) = parse(&full_file());
    assert_eq!(doc.general.title.as_deref(), Some("War of Winds"));
    assert_eq!(doc.general.author.as_deref(), Some("Some Writer"));
    assert_eq!(doc.general.read_by.as_deref(), Some("Jane Doe"));
    assert_eq!(doc.general.copyright.as_deref(), Some("2020 Publisher Inc"));
    assert_eq!(doc.general.genre.as_deref(), Some("Epic Fantasy"));
    assert_eq!(doc.general.publisher.as_deref(), Some("Audio House"));
    assert_eq!(
        doc.general.duration,
        Some(Duration { hours: 1, minutes: 30, seconds: 0 })
    );
    assert_eq!(doc.general.chapters, Some(12));
    assert_eq!(doc.general.unabridged, Some(true));
    assert_eq!(doc.media.source.format.as_deref(), Some("CD"));
    assert_eq!(doc.media.source.sample_rate.as_deref(), Some("44100 Hz"));
    assert_eq!(doc.media.source.channels, Some(2));
    assert_eq!(doc.media.source.bitrate.as_deref(), Some("1411 kbps"));
    assert_eq!(doc.media.encode.lossless_encode, Some(true));
    assert_eq!(doc.media.encode.codec.as_deref(), Some("AAC"));
    assert_eq!(doc.media.encode.sample_rate.as_deref(), Some("22050 Hz"));
    assert_eq!(doc.media.encode.channels, Some(2));
    assert_eq!(doc.media.encode.bitrate.as_deref(), Some("64 kbps"));
    assert_eq!(doc.media.chapter_adjust.as_deref(), Some("yes"));
    assert_eq!(doc.media.chapter_rename.as_deref(), Some("numbered"));
    assert_eq!(doc.media.ripper, None);
    assert_eq!(doc.media.id_tagging, None);
    assert_eq!(doc.description.as_deref(), Some("Line one./nLine two./n"));
    assert!(warnings.is_empty());
}

#[test]
fn first_match_wins_for_general_fields() {
    let (doc, _) = parse(&[
        "General Information",
        "===================",
        "Title: First Title",
        "Title: Second Title",
        "Chapters: 3",
        "Chapters: 4",
    ]);
    assert_eq!(doc.general.title.as_deref(), Some("First Title"));
    assert_eq!(doc.general.chapters, Some(3));
}

#[test]
fn first_match_wins_for_encoded_sample_rate() {
    // This library standardizes on first-match-wins for the encoded sample
    // rate as well, like every other field.
    let (doc, _) = parse(&[
        "Media Information",
        "=================",
        "Encoded Sample Rate: 22050 Hz",
        "Encoded Sample Rate: 44100 Hz",
    ]);
    assert_eq!(doc.media.encode.sample_rate.as_deref(), Some("22050 Hz"));
}

#[test]
fn duration_parses_exactly() {
    let (doc, _) = parse(&[
        "General Information",
        "===================",
        "Duration : 01 hours 30 minutes 00 seconds",
    ]);
    assert_eq!(
        doc.general.duration,
        Some(Duration { hours: 1, minutes: 30, seconds: 0 })
    );
}

#[test]
fn duration_with_bad_hours_still_counts_minutes() {
    let (doc, _) = parse(&[
        "General Information",
        "===================",
        "Duration : xx hours 30 minutes 00 seconds",
    ]);
    assert_eq!(
        doc.general.duration,
        Some(Duration { hours: 0, minutes: 30, seconds: 0 })
    );
}

#[test]
fn duration_all_zero_stays_absent() {
    let (doc, _) = parse(&[
        "General Information",
        "===================",
        "Duration : 00 hours 00 minutes 00 seconds",
    ]);
    assert_eq!(doc.general.duration, None);
}

#[test]
fn duration_huge_component_counts_as_zero() {
    let (doc, _) = parse(&[
        "General Information",
        "===================",
        "Duration : 99999999999999999999999 hours 30 minutes 00 seconds",
    ]);
    assert_eq!(
        doc.general.duration,
        Some(Duration { hours: 0, minutes: 30, seconds: 0 })
    );
}

#[test]
fn chapters_non_numeric_stays_absent_and_warns() {
    let (doc, warnings) = parse(&[
        "General Information",
        "===================",
        "Chapters: twelve",
        "Title: Still Parsed",
    ]);
    assert_eq!(doc.general.chapters, None);
    assert_eq!(warnings, vec![Warning::ChapterCount]);
    // The malformed line is not fatal: the next line is still matched.
    assert_eq!(doc.general.title.as_deref(), Some("Still Parsed"));
}

#[test]
fn chapters_at_u32_bounds() {
    let (doc, warnings) = parse(&[
        "General Information",
        "===================",
        "Chapters: 4294967295",
    ]);
    assert_eq!(doc.general.chapters, Some(4294967295));
    assert!(warnings.is_empty());

    let (doc2, warnings2) = parse(&[
        "General Information",
        "===================",
        "Chapters: 4294967296",
    ]);
    assert_eq!(doc2.general.chapters, None);
    assert_eq!(warnings2, vec![Warning::ChapterCount]);
}

#[test]
fn channels_non_numeric_warns() {
    let (doc, warnings) = parse(&[
        "Media Information",
        "=================",
        "Source Channels: stereo",
        "Encoded Channels: 65536",
    ]);
    assert_eq!(doc.media.source.channels, None);
    assert_eq!(doc.media.encode.channels, None);
    assert_eq!(warnings, vec![Warning::SourceChannels, Warning::EncodedChannels]);
}

#[test]
fn channels_at_u16_bound() {
    let (doc, warnings) = parse(&[
        "Media Information",
        "=================",
        "Encoded Channels: 65535",
    ]);
    assert_eq!(doc.media.encode.channels, Some(65535));
    assert!(warnings.is_empty());
}

#[test]
fn description_lines_concatenated_with_marker() {
    let (doc, _) = parse(&[
        "Book Description",
        "================",
        "Line one.",
        "Line two.",
    ]);
    assert_eq!(doc.description.as_deref(), Some("Line one./nLine two./n"));
}

#[test]
fn description_keeps_short_lines() {
    // The two-token threshold does not apply inside the description: any
    // line length is meaningful prose there.
    let (doc, _) = parse(&["Book Description", "================", "Word", "", "More."]);
    assert_eq!(doc.description.as_deref(), Some("Word/n/nMore./n"));
}

#[test]
fn empty_description_stays_absent() {
    let (doc, _) = parse(&["Book Description", "================"]);
    assert_eq!(doc.description, None);

    let (doc2, _) = parse(&["General Information", "====", "Title: X"]);
    assert_eq!(doc2.description, None);
}

#[test]
fn short_line_in_section_changes_nothing() {
    let mut with_stray = full_file();
    // A one-token line inside the General section, and one inside Media.
    with_stray.insert(4, "stray");
    with_stray.insert(17, "noise");
    let (doc_a, warn_a) = parse(&full_file());
    let (doc_b, warn_b) = parse(&with_stray);
    assert_eq!(doc_a, doc_b);
    assert_eq!(warn_a, warn_b);
}

#[test]
fn parsing_twice_yields_equal_results() {
    let lines = full_file();
    let (doc_a, warn_a) = parse(&lines);
    let (doc_b, warn_b) = parse(&lines);
    assert_eq!(doc_a, doc_b);
    assert_eq!(warn_a, warn_b);
}

#[test]
fn preamble_lines_are_ignored() {
    let (doc, warnings) = parse(&[
        "Title: Not In A Section",
        "Chapters: not a number either",
    ]);
    assert_eq!(doc.general.title, None);
    assert_eq!(doc.general.chapters, None);
    assert!(warnings.is_empty());
}

#[test]
fn separator_line_after_header_is_discarded() {
    // The line right after a header is discarded whatever it holds, even a
    // well-formed field line.
    let (doc, _) = parse(&["General Information", "Title: Swallowed", "Title: Kept"]);
    assert_eq!(doc.general.title.as_deref(), Some("Kept"));
}

#[test]
fn header_switches_section_even_inside_description() {
    let (doc, _) = parse(&[
        "Book Description",
        "================",
        "Prose here.",
        "General Information",
        "===================",
        "Title: After Switch",
    ]);
    assert_eq!(doc.description.as_deref(), Some("Prose here./n"));
    assert_eq!(doc.general.title.as_deref(), Some("After Switch"));
}

#[test]
fn read_requires_by_token() {
    let (doc, _) = parse(&[
        "General Information",
        "===================",
        "Read Aloud By Jane",
        "Read By Jane Doe",
    ]);
    assert_eq!(doc.general.read_by.as_deref(), Some("Jane Doe"));
}

#[test]
fn unabridged_yes_no_other() {
    let (doc, _) = parse(&["General Information", "====", "Unabridged : No"]);
    assert_eq!(doc.general.unabridged, Some(false));

    let (doc2, _) = parse(&["General Information", "====", "Unabridged : Maybe"]);
    assert_eq!(doc2.general.unabridged, None);

    let (doc3, _) = parse(&["General Information", "====", "Unabridged : Yes"]);
    assert_eq!(doc3.general.unabridged, Some(true));
}

#[test]
fn lossless_no_sets_media_flag_not_unabridged() {
    // A "Lossless : No" line concerns the encoded media record alone; the
    // general-section unabridged flag stays untouched.
    let (doc, _) = parse(&["Media Information", "====", "Lossless : No"]);
    assert_eq!(doc.media.encode.lossless_encode, Some(false));
    assert_eq!(doc.general.unabridged, None);
}

#[test]
fn sample_without_rate_is_ignored() {
    let (doc, _) = parse(&[
        "Media Information",
        "=================",
        "Source Sample",
        "Source Sample Frequency 44100",
        "Encoded Sample",
    ]);
    assert_eq!(doc.media.source.sample_rate, None);
    assert_eq!(doc.media.encode.sample_rate, None);
}

#[test]
fn unknown_labels_are_ignored() {
    let (doc, warnings) = parse(&[
        "General Information",
        "===================",
        "Narrator Mood: cheerful",
        "Title: Known",
    ]);
    assert_eq!(doc.general.title.as_deref(), Some("Known"));
    assert!(warnings.is_empty());
}

#[test]
fn empty_input_yields_all_absent() {
    let (doc, warnings) = parse(&[]);
    assert_eq!(doc, Nfo::default());
    assert_eq!(doc.general.title, None);
    assert_eq!(doc.description, None);
    assert!(warnings.is_empty());
}

#[test]
fn aux_string_joins_with_single_spaces() {
    assert_eq!(aux_string(&["a", "b", "c"]), "a b c");
    assert_eq!(aux_string(&["only"]), "only");
    assert_eq!(aux_string(&[]), "");
}
