//! Startup-time check on the audio file.
//!
//! The feeder relies on the voice library's Opus passthrough: OGG Opus pages
//! are forwarded unchanged. That requires OGG Opus at 48 kHz. Anything else is
//! still played, but is decoded, resampled and encoded again. The check warns
//! of it and never fails.
//!
//! The check looks at the first 64 bytes only: enough for the capture pattern
//! of OGG, the magic of Opus and the sample rate. It does not validate the
//! stream.
use vstd::prelude::*;

verus! {

/// How many bytes of a file the check looks at.
pub const WINDOW: usize = 64;

/// Offset of the sample rate from the start of the identification header.
pub const RATE_OFFSET: usize = 12;

/// The sample rate of the passthrough path.
pub const IDEAL_RATE: u32 = 48_000;

/// Lightweight classification of a file's container and codec.
#[derive(Debug, PartialEq, Eq, Structural)]
pub enum AudioFormat {
    /// OGG container, Opus codec, sample rate in Hz.
    OggOpus { sample_rate: u32 },
    /// OGG container but not Opus (probably Vorbis).
    OggOther,
    /// Something else: WAV, MP3, random bytes, an empty file.
    Unknown,
}

impl AudioFormat {
    /// Whether the voice library can forward the file unchanged.
    pub open spec fn passthrough(self) -> bool {
        self == (AudioFormat::OggOpus { sample_rate: IDEAL_RATE })
    }

    pub fn is_passthrough_ideal(&self) -> (r: bool)
        ensures
            r == self.passthrough(),
    {
        matches!(self, AudioFormat::OggOpus { sample_rate: 48_000 })
    }
}

/// The capture pattern of an OGG page: `OggS`.
pub open spec fn ogg_magic() -> Seq<u8> {
    seq![0x4f, 0x67, 0x67, 0x53]
}

/// The magic of an Opus identification header: `OpusHead`.
pub open spec fn opus_magic() -> Seq<u8> {
    seq![0x4f, 0x70, 0x75, 0x73, 0x48, 0x65, 0x61, 0x64]
}

/// Whether `needle` stands in `haystack` at offset `at`.
pub open spec fn occurs_at(haystack: Seq<u8>, needle: Seq<u8>, at: int) -> bool {
    0 <= at <= haystack.len() - needle.len() && haystack.subrange(at, at + needle.len()) == needle
}

/// Whether `at` is the first offset at which `needle` stands in `haystack`.
pub open spec fn first_at(haystack: Seq<u8>, needle: Seq<u8>, at: int) -> bool {
    occurs_at(haystack, needle, at) && forall|i: int|
        i < at ==> !#[trigger] occurs_at(haystack, needle, i)
}

/// The first offset at which `needle` stands in `haystack`, if there is one.
pub open spec fn position(haystack: Seq<u8>, needle: Seq<u8>) -> Option<int> {
    if exists|at: int| first_at(haystack, needle, at) {
        Some(choose|at: int| first_at(haystack, needle, at))
    } else {
        None
    }
}

/// The number that four bytes stand for, least significant byte first.
pub open spec fn little_endian(bytes: Seq<u8>) -> int {
    bytes[0] + 0x100 * bytes[1] + 0x1_0000 * bytes[2] + 0x100_0000 * bytes[3]
}

/// The four bytes that stand for a number, least significant byte first.
pub open spec fn little_endian_bytes(number: u32) -> Seq<u8> {
    seq![
        (number % 0x100) as u8,
        (number / 0x100 % 0x100) as u8,
        (number / 0x1_0000 % 0x100) as u8,
        (number / 0x100_0000) as u8,
    ]
}

/// The format of a file that starts with `bytes`.
pub open spec fn format_of(bytes: Seq<u8>) -> AudioFormat {
    let window = bytes.take(WINDOW as int);
    if bytes.len() < WINDOW || !occurs_at(window, ogg_magic(), 0) {
        AudioFormat::Unknown
    } else {
        match position(window, opus_magic()) {
            Some(head) if head + RATE_OFFSET + 4 <= WINDOW => AudioFormat::OggOpus {
                sample_rate: little_endian(window.skip(head + RATE_OFFSET)) as u32,
            },
            _ => AudioFormat::OggOther,
        }
    }
}

/// The format of a file, of which `contents` was read, or nothing where
/// reading it failed.
pub open spec fn format_read(contents: Option<Seq<u8>>) -> AudioFormat {
    match contents {
        Some(bytes) => format_of(bytes),
        None => AudioFormat::Unknown,
    }
}

/// There is at most one first offset.
pub proof fn lemma_first_is_position(haystack: Seq<u8>, needle: Seq<u8>, at: int)
    requires
        first_at(haystack, needle, at),
    ensures
        position(haystack, needle) == Some(at),
{
    let found = position(haystack, needle)->0;
    assert(first_at(haystack, needle, found));
    assert(!(at < found) && !(found < at));
}

/// Whether `needle` stands in `haystack` at offset `at`.
fn matches_at(haystack: &[u8], needle: &[u8], at: usize) -> (r: bool)
    requires
        at <= haystack@.len() - needle@.len(),
    ensures
        r == occurs_at(haystack@, needle@, at as int),
{
    let len: usize = haystack.len();
    let mut i: usize = 0;
    while i < needle.len()
        invariant
            i <= needle@.len(),
            len == haystack@.len(),
            at <= haystack@.len() - needle@.len(),
            forall|k: int| 0 <= k < i ==> haystack@[at + k] == #[trigger] needle@[k],
        decreases needle@.len() - i,
    {
        if haystack[at + i] != needle[i] {
            assert(haystack@.subrange(at as int, at + needle@.len())[i as int] != needle@[i as int]);
            return false;
        }
        i += 1;
    }
    assert(haystack@.subrange(at as int, at + needle@.len()) =~= needle@);
    true
}

/// The first offset at which `needle` stands in `haystack`, if there is one.
pub fn find_subslice(haystack: &[u8], needle: &[u8]) -> (r: Option<usize>)
    requires
        needle@.len() > 0,
    ensures
        match r {
            Some(at) => position(haystack@, needle@) == Some(at as int),
            None => position(haystack@, needle@) is None,
        },
{
    if needle.len() > haystack.len() {
        return None;
    }
    let len: usize = haystack.len();
    let last: usize = len - needle.len();
    let mut at: usize = 0;
    while at <= last
        invariant
            needle@.len() > 0,
            len == haystack@.len(),
            last == haystack@.len() - needle@.len(),
            at <= last + 1,
            forall|i: int| i < at ==> !#[trigger] occurs_at(haystack@, needle@, i),
        decreases last + 1 - at,
    {
        if matches_at(haystack, needle, at) {
            proof {
                lemma_first_is_position(haystack@, needle@, at as int);
            }
            return Some(at);
        }
        at += 1;
    }
    None
}

/// Classifies a file by its first bytes. `contents` is what was read of it, or
/// nothing where reading it failed. A file that could not be read, or that is
/// too short, is `Unknown`.
pub fn detect_format(contents: Option<&[u8]>) -> (format: AudioFormat)
    ensures
        format == format_read(
            match contents {
                Some(bytes) => Some(bytes@),
                None => None,
            },
        ),
{
    let Some(bytes) = contents else {
        return AudioFormat::Unknown;
    };
    if bytes.len() < WINDOW {
        return AudioFormat::Unknown;
    }
    let window = vstd::slice::slice_subrange(bytes, 0, WINDOW);
    assert(window@ =~= bytes@.take(WINDOW as int));
    let ogg: [u8; 4] = [0x4f, 0x67, 0x67, 0x53];
    assert(ogg@ =~= ogg_magic());
    if !matches_at(window, &ogg, 0) {
        return AudioFormat::Unknown;
    }
    let opus: [u8; 8] = [0x4f, 0x70, 0x75, 0x73, 0x48, 0x65, 0x61, 0x64];
    assert(opus@ =~= opus_magic());
    let Some(head) = find_subslice(window, &opus) else {
        return AudioFormat::OggOther;
    };
    let rate: usize = head + RATE_OFFSET;
    if rate + 4 > WINDOW {
        return AudioFormat::OggOther;
    }
    let sample_rate: u32 = window[rate] as u32 + 0x100 * (window[rate + 1] as u32) + 0x1_0000 * (
    window[rate + 2] as u32) + 0x100_0000 * (window[rate + 3] as u32);
    AudioFormat::OggOpus { sample_rate }
}

/// How loudly the check reports.
#[derive(Debug, Clone, Copy, PartialEq, Eq, Structural)]
pub enum Level {
    Info,
    Warn,
}

/// What the check reports of a file.
#[derive(Debug)]
pub struct Report {
    pub level: Level,
    /// The sample rate, where it is the trouble.
    pub sample_rate: Option<u32>,
    pub message: &'static str,
}

/// What the check has to say of a file of the given format.
pub open spec fn report_message(format: AudioFormat) -> Seq<char> {
    match format {
        AudioFormat::OggOpus { sample_rate } => if sample_rate == IDEAL_RATE {
            "audio_file_ok: OGG Opus @ 48kHz — passthrough eligible"@
        } else {
            "audio_file_non_ideal: OGG Opus but not 48kHz; songbird will resample"@
        },
        AudioFormat::OggOther => {
            "audio_file_non_ideal: OGG container but not Opus; passthrough disabled"@
        },
        AudioFormat::Unknown => {
            "audio_file_non_ideal: not OGG Opus; songbird will decode+reencode"@
        },
    }
}

impl Report {
    /// Whether this is the report on a file of the given format: a warning
    /// unless the format is the ideal one.
    pub open spec fn describes(self, format: AudioFormat) -> bool {
        &&& self.level == if format.passthrough() {
            Level::Info
        } else {
            Level::Warn
        }
        &&& self.sample_rate == match format {
            AudioFormat::OggOpus { sample_rate } if sample_rate != IDEAL_RATE => Some(sample_rate),
            _ => None,
        }
        &&& self.message@ == report_message(format)
    }
}

/// Classifies a file as [`detect_format`] does and reports on it: a warning
/// where it is anything other than OGG Opus at 48 kHz. It never fails.
pub fn check_audio_file(contents: Option<&[u8]>) -> (report: Report)
    ensures
        report.describes(
            format_read(
                match contents {
                    Some(bytes) => Some(bytes@),
                    None => None,
                },
            ),
        ),
{
    let format = detect_format(contents);
    match format {
        AudioFormat::OggOpus { sample_rate: 48_000 } => Report {
            level: Level::Info,
            sample_rate: None,
            message: "audio_file_ok: OGG Opus @ 48kHz — passthrough eligible",
        },
        AudioFormat::OggOpus { sample_rate } => Report {
            level: Level::Warn,
            sample_rate: Some(sample_rate),
            message: "audio_file_non_ideal: OGG Opus but not 48kHz; songbird will resample",
        },
        AudioFormat::OggOther => Report {
            level: Level::Warn,
            sample_rate: None,
            message: "audio_file_non_ideal: OGG container but not Opus; passthrough disabled",
        },
        AudioFormat::Unknown => Report {
            level: Level::Warn,
            sample_rate: None,
            message: "audio_file_non_ideal: not OGG Opus; songbird will decode+reencode",
        },
    }
}

/// Demands that the audio file exists. `exists` tells whether there is
/// anything at `path`. Where there is not, the feeder is misconfigured, and
/// gives up with the message that this returns.
pub fn require_audio_file_exists(path: &str, exists: bool) -> (r: Result<(), String>)
    ensures
        exists ==> r == Ok::<(), String>(()),
        !exists ==> r is Err && r->Err_0@ == "AUDIO_FILE does not exist: "@ + path@,
{
    if exists {
        return Ok(());
    }
    let mut message = "AUDIO_FILE does not exist: ".to_owned();
    message.append(path);
    Err(message)
}

} // verus!
