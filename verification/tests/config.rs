//! The settings taken from the environment.
use chronicle_feeder::config::{ConfigError, EnvConfig, EnvVars, IpAddr};

fn vars() -> EnvVars {
    EnvVars {
        discord_token: Some("secret".to_string()),
        feeder_name: None,
        audio_file: Some("/a.ogg".to_string()),
        control_port: None,
        control_bind: None,
    }
}

fn port(text: &str) -> u16 {
    let mut vars = vars();
    vars.control_port = Some(text.to_string());
    EnvConfig::from_env(vars, true).unwrap().control_port
}

#[test]
fn defaults() {
    let cfg = EnvConfig::from_env(vars(), true).unwrap();
    assert_eq!(cfg.token, "secret");
    assert_eq!(cfg.name, "feeder");
    assert_eq!(cfg.audio_file, "/a.ogg");
    assert_eq!(cfg.control_port, 8003);
    assert!(matches!(cfg.control_bind, IpAddr::V4 { octets: [127, 0, 0, 1] }));
}

#[test]
fn given_values_win() {
    let mut vars = vars();
    vars.feeder_name = Some("moe".to_string());
    vars.control_port = Some("9000".to_string());
    vars.control_bind = Some("0.0.0.0".to_string());
    let cfg = EnvConfig::from_env(vars, true).unwrap();
    assert_eq!(cfg.name, "moe");
    assert_eq!(cfg.control_port, 9000);
    assert!(matches!(cfg.control_bind, IpAddr::V4 { octets: [0, 0, 0, 0] }));
}

/// The address that is bound to where CONTROL_BIND holds `text`.
fn bind(text: &str) -> IpAddr {
    let mut vars = vars();
    vars.control_bind = Some(text.to_string());
    EnvConfig::from_env(vars, true).unwrap().control_bind
}

#[test]
fn addresses_that_can_be_read() {
    assert!(matches!(bind("192.168.1.20"), IpAddr::V4 { octets: [192, 168, 1, 20] }));
    assert!(matches!(
        bind("::1"),
        IpAddr::V6 { octets: [0, 0, 0, 0, 0, 0, 0, 0, 0, 0, 0, 0, 0, 0, 0, 1] }
    ));
    assert!(matches!(
        bind("2001:db8::a1b2"),
        IpAddr::V6 {
            octets: [0x20, 0x01, 0x0d, 0xb8, 0, 0, 0, 0, 0, 0, 0, 0, 0, 0, 0xa1, 0xb2]
        }
    ));
    assert!(matches!(
        bind("::ffff:1.2.3.4"),
        IpAddr::V6 { octets: [0, 0, 0, 0, 0, 0, 0, 0, 0, 0, 0xff, 0xff, 1, 2, 3, 4] }
    ));
}

#[test]
fn addresses_that_cannot_be_read() {
    for text in ["", "localhost", "1.2.3", "1.2.3.256", "1.2.3.4:80", "01.2.3.4", " 1.2.3.4", ":::"] {
        assert!(matches!(bind(text), IpAddr::V4 { octets: [127, 0, 0, 1] }));
    }
}

#[test]
fn an_address_that_was_read_is_kept() {
    let six = IpAddr::V6 { octets: [0, 0, 0, 0, 0, 0, 0, 0, 0, 0, 0, 0, 0, 0, 0, 1] };
    let cfg = EnvConfig::with_bind(vars(), true, Some(six)).unwrap();
    assert!(matches!(
        cfg.control_bind,
        IpAddr::V6 { octets: [0, 0, 0, 0, 0, 0, 0, 0, 0, 0, 0, 0, 0, 0, 0, 1] }
    ));
    let cfg = EnvConfig::with_bind(vars(), true, None).unwrap();
    assert!(matches!(cfg.control_bind, IpAddr::V4 { octets: [127, 0, 0, 1] }));
    assert!(EnvConfig::with_bind(vars(), false, Some(six)).is_err());
}

#[test]
fn ports_that_can_be_read() {
    assert_eq!(port("0"), 0);
    assert_eq!(port("80"), 80);
    assert_eq!(port("+80"), 80);
    assert_eq!(port("000000080"), 80);
    assert_eq!(port("65535"), 65535);
}

#[test]
fn ports_that_cannot_be_read() {
    for text in ["", "+", "-", "++80", "-80", "-0", "65536", "99999999999999999999", " 80", "80 ",
        "8_0", "80x", "0x50", "８０"] {
        assert_eq!(port(text), 8003);
    }
}

#[test]
fn ports_are_read_as_std_reads_them() {
    for n in 0..70_000u32 {
        let text = n.to_string();
        assert_eq!(port(&text), text.parse::<u16>().unwrap_or(8003));
    }
    for text in ["+0", "+65535", "+65536", "4294967296", "4294967376", "18446744073709551696", "8+0",
        "80+", "/", ":", "8:", "\n80", "0080", "é", "9é"] {
        assert_eq!(port(text), text.parse::<u16>().unwrap_or(8003));
    }
}

#[test]
fn a_missing_token_comes_first() {
    let mut vars = vars();
    vars.discord_token = None;
    vars.audio_file = None;
    let err = EnvConfig::from_env(vars, false).unwrap_err();
    assert!(matches!(err, ConfigError::TokenNotSet));
    assert_eq!(err.message(), "DISCORD_TOKEN not set");
}

#[test]
fn an_audio_file_must_be_given() {
    let mut vars = vars();
    vars.audio_file = None;
    let err = EnvConfig::from_env(vars, false).unwrap_err();
    assert!(matches!(err, ConfigError::AudioFileNotSet));
    assert_eq!(err.message(), "AUDIO_FILE not set — path to OGG Opus file to play");
}

#[test]
fn the_audio_file_must_exist() {
    let err = EnvConfig::from_env(vars(), false).unwrap_err();
    assert!(matches!(err, ConfigError::AudioFileAbsent(_)));
    assert_eq!(err.message(), "AUDIO_FILE does not exist: /a.ogg");
}
