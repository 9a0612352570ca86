//! The settings of the process, taken from environment variables.
use vstd::prelude::*;

use crate::audio::require_audio_file_exists;

verus! {

/// The label of a feeder that is given none.
pub open spec fn default_name() -> Seq<char> {
    "feeder"@
}

/// The control port, where none is given or none can be read.
pub const DEFAULT_PORT: u16 = 8003;

/// An IP address, most significant byte first.
#[derive(Debug, Clone, Copy)]
pub enum IpAddr {
    V4 { octets: [u8; 4] },
    V6 { octets: [u8; 16] },
}

/// The bytes of the address. Their number tells the version.
impl View for IpAddr {
    type V = Seq<u8>;

    open spec fn view(&self) -> Seq<u8> {
        match self {
            IpAddr::V4 { octets } => octets@,
            IpAddr::V6 { octets } => octets@,
        }
    }
}

/// The address to bind to, where none is given or none can be read:
/// `127.0.0.1`.
pub open spec fn default_bind() -> Seq<u8> {
    seq![127, 0, 0, 1]
}

/// What the environment holds. A variable that is unset, or is not text, is
/// `None`.
#[derive(Debug)]
pub struct EnvVars {
    pub discord_token: Option<String>,
    pub feeder_name: Option<String>,
    pub audio_file: Option<String>,
    pub control_port: Option<String>,
    pub control_bind: Option<String>,
}

/// The settings.
#[derive(Debug)]
pub struct EnvConfig {
    pub token: String,
    pub name: String,
    pub audio_file: String,
    pub control_port: u16,
    pub control_bind: IpAddr,
}

/// Why the process cannot start. Each error gives up with its message.
#[derive(Debug)]
pub enum ConfigError {
    /// No bot token is given.
    TokenNotSet,
    /// No audio file is given.
    AudioFileNotSet,
    /// There is no file where the audio file should be. Holds the message.
    AudioFileAbsent(String),
}

/// The digits of a number, after an optional plus sign.
pub open spec fn digits_of(text: Seq<char>) -> Seq<char> {
    if text.len() > 0 && text[0] == '+' {
        text.drop_first()
    } else {
        text
    }
}

/// Whether `text` is one or more ASCII digits.
pub open spec fn is_decimal(text: Seq<char>) -> bool {
    text.len() > 0 && forall|i: int| 0 <= i < text.len() ==> '0' <= #[trigger] text[i] <= '9'
}

/// The number that a sequence of digits stands for.
pub open spec fn decimal(digits: Seq<char>) -> nat
    decreases digits.len(),
{
    if digits.len() == 0 {
        0
    } else {
        decimal(digits.drop_last()) * 10 + (digits.last() as nat - '0' as nat) as nat
    }
}

/// The port that `text` names: one or more decimal digits, after an optional
/// plus sign, that stand for a number of 16 bits, and nothing else.
pub open spec fn port_of(text: Seq<char>) -> Option<u16> {
    let digits = digits_of(text);
    if is_decimal(digits) && decimal(digits) <= u16::MAX {
        Some(decimal(digits) as u16)
    } else {
        None
    }
}

/// A number is at least the one that its first digits stand for.
proof fn lemma_decimal_grows(digits: Seq<char>, count: int)
    requires
        0 <= count <= digits.len(),
    ensures
        decimal(digits.take(count)) <= decimal(digits),
    decreases digits.len() - count,
{
    if count == digits.len() {
        assert(digits.take(count) =~= digits);
    } else {
        assert(digits.take(count + 1).drop_last() =~= digits.take(count));
        lemma_decimal_grows(digits, count + 1);
    }
}

/// Reads a port number.
fn parse_port(text: &str) -> (port: Option<u16>)
    ensures
        port == port_of(text@),
{
    let len: usize = text.unicode_len();
    let start: usize = if len > 0 && text.get_char(0) == '+' {
        1
    } else {
        0
    };
    let ghost digits = digits_of(text@);
    assert(digits.len() == len - start);
    assert(forall|i: int| 0 <= i < digits.len() ==> digits[i] == text@[start + i]);
    if start == len {
        return None;
    }
    let mut value: u32 = 0;
    let mut at: usize = start;
    assert(digits.take(0) =~= Seq::<char>::empty());
    while at < len
        invariant
            len == text@.len(),
            digits == digits_of(text@),
            start <= at <= len,
            start < len,
            digits.len() == len - start,
            forall|i: int| 0 <= i < digits.len() ==> digits[i] == text@[start + i],
            forall|i: int| 0 <= i < at - start ==> '0' <= #[trigger] digits[i] <= '9',
            value == decimal(digits.take(at - start)),
            value <= u16::MAX,
        decreases len - at,
    {
        let c = text.get_char(at);
        assert(c == digits[at - start]);
        if c < '0' || c > '9' {
            return None;
        }
        assert(digits.take(at - start + 1).drop_last() =~= digits.take(at - start));
        value = value * 10 + (c as u32 - '0' as u32);
        at += 1;
        if value > 65535 {
            proof {
                lemma_decimal_grows(digits, at - start);
            }
            return None;
        }
    }
    assert(digits.take(at - start) =~= digits);
    Some(value as u16)
}

/// The bytes of the IP address that `text` names, if it names one.
pub uninterp spec fn ip_addr_of(text: Seq<char>) -> Option<Seq<u8>>;

/// Calls `str::parse` of std for `core::net::IpAddr`, the type that holds an
/// IPv4 or an IPv6 address. Trusted that whether it succeeds, and the bytes of
/// the address that it returns, depend on the text alone; which texts name
/// which addresses is not stated.
#[verifier::external_body]
fn parse_bind(text: &str) -> (addr: Option<IpAddr>)
    ensures
        view_addr(addr) == ip_addr_of(text@),
{
    match text.parse::<core::net::IpAddr>() {
        Ok(core::net::IpAddr::V4(v4)) => Some(IpAddr::V4 { octets: v4.octets() }),
        Ok(core::net::IpAddr::V6(v6)) => Some(IpAddr::V6 { octets: v6.octets() }),
        Err(_) => None,
    }
}

/// An address that may be missing, as bytes.
pub open spec fn view_addr(addr: Option<IpAddr>) -> Option<Seq<u8>> {
    match addr {
        Some(addr) => Some(addr@),
        None => None,
    }
}

impl EnvVars {
    /// The address that the environment names, if it names one.
    pub open spec fn named_bind(self) -> Option<Seq<u8>> {
        match self.control_bind {
            Some(text) => ip_addr_of(text@),
            None => None,
        }
    }

    /// Whether `r` is what loading the settings comes to, where `bind` is the
    /// address that the environment names: the first error there is, or else
    /// the settings, with the defaults for what is not given.
    pub open spec fn loads_as(
        self,
        audio_file_exists: bool,
        bind: Option<Seq<u8>>,
        r: Result<EnvConfig, ConfigError>,
    ) -> bool {
        match (self.discord_token, self.audio_file) {
            (None, _) => r == Err::<EnvConfig, ConfigError>(ConfigError::TokenNotSet),
            (Some(_), None) => r == Err::<EnvConfig, ConfigError>(ConfigError::AudioFileNotSet),
            (Some(token), Some(audio_file)) => if audio_file_exists {
                &&& r is Ok
                &&& r->Ok_0.token == token
                &&& r->Ok_0.name@ == match self.feeder_name {
                    Some(name) => name@,
                    None => default_name(),
                }
                &&& r->Ok_0.audio_file == audio_file
                &&& r->Ok_0.control_port == match self.control_port {
                    Some(text) => port_of(text@).unwrap_or(DEFAULT_PORT),
                    None => DEFAULT_PORT,
                }
                &&& r->Ok_0.control_bind@ == bind.unwrap_or(default_bind())
            } else {
                &&& r is Err
                &&& r->Err_0 matches ConfigError::AudioFileAbsent(text)
                &&& text@ == "AUDIO_FILE does not exist: "@ + audio_file@
            },
        }
    }
}

impl ConfigError {
    /// The message that the process gives up with.
    pub fn message(&self) -> (message: String)
        ensures
            match self {
                ConfigError::TokenNotSet => message@ == "DISCORD_TOKEN not set"@,
                ConfigError::AudioFileNotSet => message@
                    == "AUDIO_FILE not set — path to OGG Opus file to play"@,
                ConfigError::AudioFileAbsent(text) => message@ == text@,
            },
    {
        match self {
            ConfigError::TokenNotSet => "DISCORD_TOKEN not set".to_owned(),
            ConfigError::AudioFileNotSet => {
                "AUDIO_FILE not set — path to OGG Opus file to play".to_owned()
            },
            ConfigError::AudioFileAbsent(text) => text.clone(),
        }
    }
}

impl EnvConfig {
    /// Takes the settings from the environment. The token and the audio file
    /// are required, and the audio file must exist; `audio_file_exists` tells
    /// whether it does. The name, the port and the address have defaults, and
    /// a port or an address that cannot be read counts as unset.
    pub fn from_env(vars: EnvVars, audio_file_exists: bool) -> (r: Result<EnvConfig, ConfigError>)
        ensures
            vars.loads_as(audio_file_exists, vars.named_bind(), r),
    {
        let bind = match &vars.control_bind {
            Some(text) => parse_bind(text.as_str()),
            None => None,
        };
        EnvConfig::with_bind(vars, audio_file_exists, bind)
    }

    /// As [`EnvConfig::from_env`], with `bind` as the address that the
    /// environment names, in place of its text.
    pub fn with_bind(vars: EnvVars, audio_file_exists: bool, bind: Option<IpAddr>) -> (r: Result<
        EnvConfig,
        ConfigError,
    >)
        ensures
            vars.loads_as(audio_file_exists, view_addr(bind), r),
            r is Ok && bind is Some ==> r->Ok_0.control_bind == bind->0,
            r is Ok && bind is None ==> r->Ok_0.control_bind is V4,
    {
        let Some(token) = vars.discord_token else {
            return Err(ConfigError::TokenNotSet);
        };
        let name = match vars.feeder_name {
            Some(name) => name,
            None => "feeder".to_owned(),
        };
        let Some(audio_file) = vars.audio_file else {
            return Err(ConfigError::AudioFileNotSet);
        };
        if let Err(message) = require_audio_file_exists(audio_file.as_str(), audio_file_exists) {
            return Err(ConfigError::AudioFileAbsent(message));
        }
        let mut control_port: u16 = DEFAULT_PORT;
        if let Some(text) = vars.control_port {
            if let Some(port) = parse_port(text.as_str()) {
                control_port = port;
            }
        }
        let control_bind = match bind {
            Some(bind) => bind,
            None => {
                let octets: [u8; 4] = [127, 0, 0, 1];
                assert(octets@ =~= default_bind());
                IpAddr::V4 { octets }
            },
        };
        Ok(EnvConfig { token, name, audio_file, control_port, control_bind })
    }
}

} // verus!
