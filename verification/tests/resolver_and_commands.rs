use musay::audio::resolver::{check_parsed_url, ParsedUrl, UrlHost};
use musay::audio::{AudioSource, BasicResolver, RepeatMode, SourceError, SourceKind};
use musay::discord::{parse_command, Command, CommandError};

fn invalid_reason(input: &str) -> String {
    match BasicResolver.resolve(input, 1) {
        Err(SourceError::Invalid(m)) => m,
        other => panic!("expected an invalid source, got {:?}", other),
    }
}

#[test]
fn resolver_reasons() {
    assert_eq!(invalid_reason("   "), "empty query");
    assert_eq!(invalid_reason("a\u{7}b"), "query exceeds input limits");
    assert_eq!(invalid_reason("a\u{85}b"), "query exceeds input limits");
    assert_eq!(invalid_reason(&"é".repeat(1025)), "query exceeds input limits");
    assert_eq!(invalid_reason("ftp://example.com/a.mp3"), "only HTTP(S) sources are accepted");
    assert_eq!(invalid_reason("https://user:pw@example.com/a"), "URL credentials are not accepted");
    assert_eq!(invalid_reason("https://user@example.com/a"), "URL credentials are not accepted");
    for host in [
        "10.1.2.3",
        "172.16.0.1",
        "172.31.255.255",
        "192.168.1.1",
        "127.0.0.1",
        "169.254.1.1",
        "0.0.0.0",
        "255.255.255.255",
        "192.0.2.7",
        "198.51.100.7",
        "203.0.113.7",
        "0x7f.1",
        "[::1]",
        "[::]",
        "[fc00::1]",
        "[fdab:cdef::2]",
        "[fe80::1]",
        "[febf:ffff::1]",
    ] {
        assert_eq!(
            invalid_reason(&format!("http://{host}/x")),
            "private or local network destinations are not accepted",
            "{host}"
        );
    }
}

#[test]
fn resolver_accepts_public_addresses() {
    for host in ["8.8.8.8", "172.32.0.1", "192.169.0.1", "example.com", "[2606:4700::1]", "[fec0::1]", "[::2]"] {
        assert!(BasicResolver.resolve(&format!("http://{host}/x"), 1).is_ok(), "{host}");
    }
}

#[test]
fn resolver_builds_the_track() {
    let v = BasicResolver.resolve("  lofi beats  ", 77).unwrap();
    assert_eq!(v.len(), 1);
    assert_eq!(v[0].title, "lofi beats");
    assert_eq!(v[0].url, "search://lofi beats");
    assert_eq!(v[0].id, v[0].url);
    assert_eq!(v[0].requested_by, 77);
    assert_eq!(v[0].source, SourceKind::Unknown);

    let y = BasicResolver.resolve("https://www.youtube.com/watch?v=abc", 1).unwrap();
    assert_eq!(y[0].url, "https://www.youtube.com/watch?v=abc");
    assert_eq!(y[0].source, SourceKind::YouTube);
    let s = BasicResolver.resolve("https://soundcloud.com/a/b", 1).unwrap();
    assert_eq!(s[0].source, SourceKind::SoundCloud);
    let d = BasicResolver.resolve("https://example.com/a.mp3", 1).unwrap();
    assert_eq!(d[0].source, SourceKind::DirectUrl);
    let q = BasicResolver.resolve("youtube rewind", 1).unwrap();
    assert_eq!(q[0].source, SourceKind::YouTube);
    assert_eq!(q[0].url, "search://youtube rewind");
}

#[test]
fn source_error_messages() {
    assert_eq!(SourceError::Invalid("x".to_owned()).message(), "invalid source: x");
    assert_eq!(SourceError::Unavailable("y".to_owned()).message(), "source unavailable: y");
    assert_eq!(SourceError::Resolver("z".to_owned()).message(), "resolver error: z");
}

#[test]
fn every_command_name() {
    let cases = [
        ("!pause", Command::Pause),
        ("!resume", Command::Resume),
        ("!unpause", Command::Resume),
        ("!stop", Command::Stop),
        ("!skip", Command::Skip),
        ("!next", Command::Skip),
        ("!previous", Command::Previous),
        ("!back", Command::Previous),
        ("!shuffle", Command::Shuffle),
        ("!queue", Command::Queue),
        ("!q", Command::Queue),
        ("!nowplaying", Command::NowPlaying),
        ("!np", Command::NowPlaying),
        ("!mute", Command::Mute),
        ("!clear", Command::Clear),
        ("!help", Command::Help),
        ("!vol 7", Command::Volume(7)),
        ("!volume +5", Command::Volume(5)),
        ("!remove 3", Command::Remove(3)),
        ("!loop track", Command::Repeat(RepeatMode::Track)),
        ("!repeat off", Command::Repeat(RepeatMode::Off)),
        ("!repeat", Command::Repeat(RepeatMode::Off)),
        ("!p song", Command::Play("song".to_owned())),
        ("  !PLAY   some song  ", Command::Play("some song".to_owned())),
        ("play without prefix", Command::Play("without prefix".to_owned())),
        ("!HeLp", Command::Help),
    ];
    for (input, want) in cases {
        assert_eq!(parse_command(input, "!"), Ok(want), "{input}");
    }
}

#[test]
fn command_errors() {
    assert_eq!(parse_command("!play", "!"), Err(CommandError::MissingArgument));
    assert_eq!(parse_command("!play    ", "!"), Err(CommandError::MissingArgument));
    assert_eq!(parse_command("!volume", "!"), Err(CommandError::MissingArgument));
    assert_eq!(parse_command("!remove", "!"), Err(CommandError::MissingArgument));
    assert_eq!(parse_command("!volume 256", "!"), Err(CommandError::InvalidNumber));
    assert_eq!(parse_command("!volume -1", "!"), Err(CommandError::InvalidNumber));
    assert_eq!(parse_command("!volume +", "!"), Err(CommandError::InvalidNumber));
    assert_eq!(parse_command("!volume 4x", "!"), Err(CommandError::InvalidNumber));
    assert_eq!(
        parse_command("!remove 99999999999999999999999", "!"),
        Err(CommandError::InvalidNumber)
    );
    assert_eq!(parse_command("!repeat all", "!"), Err(CommandError::Unknown));
    assert_eq!(parse_command("!dance", "!"), Err(CommandError::Unknown));
    assert_eq!(parse_command("", "!"), Err(CommandError::Unknown));
    assert_eq!(parse_command("!help", &"!".repeat(17)), Err(CommandError::InvalidInput));
    let long = "!play ".to_owned() + &"x".repeat(2042);
    assert_eq!(long.len(), 2048);
    assert!(parse_command(&long, "!").is_ok());
    assert_eq!(parse_command(&(long + "x"), "!"), Err(CommandError::InvalidInput));
}

#[test]
fn command_error_messages() {
    assert_eq!(CommandError::Unknown.message(), "unknown command");
    assert_eq!(CommandError::MissingArgument.message(), "missing argument");
    assert_eq!(CommandError::InvalidNumber.message(), "invalid number");
    assert_eq!(CommandError::InvalidInput.message(), "invalid input");
}

#[test]
fn multi_character_prefix() {
    assert_eq!(parse_command("m!skip", "m!"), Ok(Command::Skip));
    assert_eq!(parse_command("skip", "m!"), Ok(Command::Skip));
}

#[test]
fn prefix_is_optional() {
    for body in ["skip", "volume 12", "play some song", "repeat track", "nothing"] {
        assert_eq!(parse_command(&format!("!{body}"), "!"), parse_command(body, "!"), "{body}");
        assert_eq!(parse_command(&format!(">>{body}"), ">>"), parse_command(body, ">>"), "{body}");
    }
}

#[test]
fn parsed_url_checks() {
    let url = |scheme: &str, user: &str, password: Option<&str>, host: Option<UrlHost>| ParsedUrl {
        scheme: scheme.to_owned(),
        username: user.to_owned(),
        password: password.map(|p| p.to_owned()),
        host,
    };
    let msg = |r: Result<(), SourceError>| match r {
        Err(SourceError::Invalid(m)) => m,
        other => panic!("expected a refusal, got {:?}", other),
    };
    assert!(check_parsed_url(&url("https", "", None, Some(UrlHost::Domain("a.b".to_owned())))).is_ok());
    assert!(check_parsed_url(&url("http", "", None, Some(UrlHost::Ipv4([1, 2, 3, 4])))).is_ok());
    assert_eq!(msg(check_parsed_url(&url("ftp", "", None, None))), "only HTTP(S) sources are accepted");
    assert_eq!(msg(check_parsed_url(&url("https", "u", None, None))), "URL credentials are not accepted");
    assert_eq!(msg(check_parsed_url(&url("https", "", Some("p"), None))), "URL credentials are not accepted");
    let mut v6 = [0u8; 16];
    v6[15] = 1;
    assert_eq!(
        msg(check_parsed_url(&url("https", "", None, Some(UrlHost::Ipv6(v6))))),
        "private or local network destinations are not accepted"
    );
    v6[15] = 2;
    assert!(check_parsed_url(&url("https", "", None, Some(UrlHost::Ipv6(v6)))).is_ok());
    assert_eq!(
        msg(check_parsed_url(&url("ftp", "u", None, Some(UrlHost::Ipv4([127, 0, 0, 1]))))),
        "only HTTP(S) sources are accepted"
    );
}
