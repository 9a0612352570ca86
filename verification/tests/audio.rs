//! The check on the audio file.
use chronicle_feeder::audio::{
    check_audio_file, detect_format, find_subslice, require_audio_file_exists, AudioFormat, Level,
};

/// Minimal OGG page with an Opus identification header. Not a playable stream,
/// just enough for the check.
fn fake_ogg_opus(sample_rate: u32) -> Vec<u8> {
    // OGG page header (27 bytes), segment table (1 byte), then payload.
    let mut page = Vec::new();
    page.extend_from_slice(b"OggS");
    page.push(0); // version
    page.push(0x02); // header type (first page)
    page.extend_from_slice(&0u64.to_le_bytes()); // granule pos
    page.extend_from_slice(&0u32.to_le_bytes()); // serial
    page.extend_from_slice(&0u32.to_le_bytes()); // seq
    page.extend_from_slice(&0u32.to_le_bytes()); // checksum
    page.push(1); // page segments
    page.push(19); // segment length
    page.extend_from_slice(b"OpusHead");
    page.push(1); // version
    page.push(2); // channels
    page.extend_from_slice(&0u16.to_le_bytes()); // preskip
    page.extend_from_slice(&sample_rate.to_le_bytes());
    page.extend_from_slice(&0u16.to_le_bytes()); // output gain
    page.push(0); // channel mapping family
    while page.len() < 64 {
        page.push(0);
    }
    page
}

/// An OGG page that holds the magic of Opus at `head`, and 48 kHz after it.
fn ogg_opus_at(head: usize, len: usize) -> Vec<u8> {
    let mut page = vec![0u8; len];
    page[..4].copy_from_slice(b"OggS");
    page[head..head + 8].copy_from_slice(b"OpusHead");
    if head + 16 <= len {
        page[head + 12..head + 16].copy_from_slice(&48_000u32.to_le_bytes());
    }
    page
}

#[test]
fn detects_ogg_opus_48khz() {
    let page = fake_ogg_opus(48_000);
    assert_eq!(
        detect_format(Some(&page)),
        AudioFormat::OggOpus { sample_rate: 48_000 }
    );
}

#[test]
fn detects_ogg_opus_non_48khz() {
    let page = fake_ogg_opus(44_100);
    assert!(matches!(
        detect_format(Some(&page)),
        AudioFormat::OggOpus { sample_rate: 44_100 }
    ));
}

#[test]
fn detects_unknown_for_non_ogg() {
    let mut wav = Vec::new();
    wav.extend_from_slice(b"RIFF");
    wav.extend_from_slice(&[0u8; 60]);
    assert_eq!(detect_format(Some(&wav)), AudioFormat::Unknown);
}

#[test]
fn detects_unknown_for_missing_file() {
    assert_eq!(detect_format(None), AudioFormat::Unknown);
}

#[test]
#[should_panic(expected = "AUDIO_FILE does not exist")]
fn require_audio_file_exists_panics_on_missing() {
    let path = "/tmp/feeder_test_definitely_missing_file_9f3a2b1c.ogg";
    let exists = std::path::Path::new(path).exists();
    if let Err(message) = require_audio_file_exists(path, exists) {
        panic!("{}", message);
    }
}

#[test]
fn require_audio_file_exists_accepts_existing() {
    let exists = std::path::Path::new("/").exists();
    assert_eq!(require_audio_file_exists("/", exists), Ok(()));
    assert_eq!(require_audio_file_exists("feeder_test_exists.bin", true), Ok(()));
}

#[test]
fn missing_file_is_named() {
    assert_eq!(
        require_audio_file_exists("/no/such.ogg", false),
        Err("AUDIO_FILE does not exist: /no/such.ogg".to_string())
    );
}

#[test]
fn detects_unknown_for_short_file() {
    let page = fake_ogg_opus(48_000);
    assert_eq!(detect_format(Some(&page[..63])), AudioFormat::Unknown);
    assert_eq!(detect_format(Some(b"OggS")), AudioFormat::Unknown);
    assert_eq!(detect_format(Some(&[])), AudioFormat::Unknown);
}

#[test]
fn detects_ogg_without_opus() {
    let mut page = fake_ogg_opus(48_000);
    page[28..36].copy_from_slice(b"\x01vorbis\0");
    assert_eq!(detect_format(Some(&page)), AudioFormat::OggOther);
}

#[test]
fn header_must_lie_in_the_first_bytes() {
    assert_eq!(
        detect_format(Some(&ogg_opus_at(48, 64))),
        AudioFormat::OggOpus { sample_rate: 48_000 }
    );
    assert_eq!(detect_format(Some(&ogg_opus_at(49, 64))), AudioFormat::OggOther);
    assert_eq!(detect_format(Some(&ogg_opus_at(49, 4096))), AudioFormat::OggOther);
    assert_eq!(detect_format(Some(&ogg_opus_at(56, 4096))), AudioFormat::OggOther);
    assert_eq!(detect_format(Some(&ogg_opus_at(57, 4096))), AudioFormat::OggOther);
}

#[test]
fn format_depends_on_the_first_bytes_alone() {
    let mut page = fake_ogg_opus(44_100);
    let short = detect_format(Some(&page));
    page.extend_from_slice(b"OpusHead and much more");
    assert_eq!(detect_format(Some(&page)), short);
}

#[test]
fn every_byte_of_the_rate_counts() {
    for rate in [0u32, 1, 0x100, 0x1_0000, 0x100_0000, 0x1234_5678, u32::MAX] {
        assert_eq!(
            detect_format(Some(&fake_ogg_opus(rate))),
            AudioFormat::OggOpus { sample_rate: rate }
        );
    }
}

#[test]
fn finds_the_first_occurrence() {
    assert_eq!(find_subslice(b"abcabc", b"bc"), Some(1));
    assert_eq!(find_subslice(b"abcabc", b"abcabc"), Some(0));
    assert_eq!(find_subslice(b"abcabd", b"abd"), Some(3));
    assert_eq!(find_subslice(b"abc", b"abcd"), None);
    assert_eq!(find_subslice(b"", b"a"), None);
    assert_eq!(find_subslice(b"aab", b"ac"), None);
}

#[test]
fn only_opus_at_48khz_is_ideal() {
    assert!(AudioFormat::OggOpus { sample_rate: 48_000 }.is_passthrough_ideal());
    assert!(!AudioFormat::OggOpus { sample_rate: 44_100 }.is_passthrough_ideal());
    assert!(!AudioFormat::OggOther.is_passthrough_ideal());
    assert!(!AudioFormat::Unknown.is_passthrough_ideal());
}

#[test]
fn warns_unless_ideal() {
    let report = check_audio_file(Some(&fake_ogg_opus(48_000)));
    assert_eq!(report.level, Level::Info);
    assert_eq!(report.sample_rate, None);
    assert_eq!(report.message, "audio_file_ok: OGG Opus @ 48kHz — passthrough eligible");

    let report = check_audio_file(Some(&fake_ogg_opus(44_100)));
    assert_eq!(report.level, Level::Warn);
    assert_eq!(report.sample_rate, Some(44_100));
    assert_eq!(
        report.message,
        "audio_file_non_ideal: OGG Opus but not 48kHz; songbird will resample"
    );

    let report = check_audio_file(Some(&ogg_opus_at(57, 80)));
    assert_eq!(report.level, Level::Warn);
    assert_eq!(report.sample_rate, None);
    assert_eq!(
        report.message,
        "audio_file_non_ideal: OGG container but not Opus; passthrough disabled"
    );

    let report = check_audio_file(None);
    assert_eq!(report.level, Level::Warn);
    assert_eq!(report.sample_rate, None);
    assert_eq!(
        report.message,
        "audio_file_non_ideal: not OGG Opus; songbird will decode+reencode"
    );
}
