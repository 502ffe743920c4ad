use spotmpd::config::{Config, MpdConfig, SpotifyConfig};
use spotmpd::respot::PlayerEvent;
use spotmpd::strutil::{
    extract_arg, first_token, i64_to_string, join_lines, join_sep, millis_to_fixed_string,
    parse_i32, parse_u64, parse_usize, pad3_to_string, str_eq, trim_line, u64_to_string,
};
use spotmpd::track::Track;

#[test]
fn decimal_rendering() {
    assert_eq!(u64_to_string(0), "0");
    assert_eq!(u64_to_string(7), "7");
    assert_eq!(u64_to_string(407), "407");
    assert_eq!(u64_to_string(u64::MAX), "18446744073709551615");
    assert_eq!(i64_to_string(-42), "-42");
    assert_eq!(i64_to_string(42), "42");
    assert_eq!(i64_to_string(i64::MIN), "-9223372036854775808");
    assert_eq!(pad3_to_string(7), "007");
    assert_eq!(pad3_to_string(70), "070");
    assert_eq!(pad3_to_string(700), "700");
}

#[test]
fn millis_render_as_fixed_point_seconds() {
    assert_eq!(millis_to_fixed_string(0), "0.000");
    assert_eq!(millis_to_fixed_string(12_345), "12.345");
    assert_eq!(millis_to_fixed_string(1_000), "1.000");
    assert_eq!(millis_to_fixed_string(999), "0.999");
}

#[test]
fn unsigned_parsing() {
    assert_eq!(parse_u64("0"), Some(0));
    assert_eq!(parse_u64("00417"), Some(417));
    assert_eq!(parse_u64("18446744073709551615"), Some(u64::MAX));
    assert_eq!(parse_u64("18446744073709551616"), None);
    assert_eq!(parse_u64(""), None);
    assert_eq!(parse_u64("12x"), None);
    assert_eq!(parse_u64("-3"), None);
    assert_eq!(parse_usize("25"), Some(25));
}

#[test]
fn signed_parsing() {
    assert_eq!(parse_i32("+5"), Some(5));
    assert_eq!(parse_i32("-5"), Some(-5));
    assert_eq!(parse_i32("17"), Some(17));
    assert_eq!(parse_i32("2147483647"), Some(i32::MAX));
    assert_eq!(parse_i32("-2147483648"), Some(i32::MIN));
    assert_eq!(parse_i32("2147483648"), None);
    assert_eq!(parse_i32("+"), None);
    assert_eq!(parse_i32(""), None);
    assert_eq!(parse_i32("5.5"), None);
}

#[test]
fn trimming_and_tokenising() {
    assert_eq!(trim_line("  status \r\n"), "status");
    assert_eq!(trim_line(""), "");
    assert_eq!(trim_line(" \t "), "");
    assert_eq!(trim_line("a"), "a");
    assert_eq!(first_token("play 3"), "play");
    assert_eq!(first_token("  play 3"), "play");
    assert_eq!(first_token(""), "");
    assert_eq!(first_token("status"), "status");
}

#[test]
fn argument_extraction_matches_the_protocol_grammar() {
    assert_eq!(extract_arg("add spotify:track:ABC"), Some("spotify:track:ABC".to_string()));
    assert_eq!(extract_arg("listplaylistinfo \"My List\""), Some("My List".to_string()));
    assert_eq!(extract_arg("listplaylistinfo My List"), Some("My List".to_string()));
    assert_eq!(extract_arg("status"), None);
    assert_eq!(extract_arg("play  7"), Some("7".to_string()));
    assert_eq!(extract_arg("verb "), Some("".to_string()));
}

#[test]
fn string_helpers() {
    assert!(str_eq("abc", "abc"));
    assert!(!str_eq("abc", "abd"));
    assert!(!str_eq("abc", "ab"));
    let lines = vec!["a".to_string(), "b".to_string(), "c".to_string()];
    assert_eq!(join_lines(&lines), "a\nb\nc");
    assert_eq!(join_sep(&lines, "; "), "a; b; c");
    assert_eq!(join_lines(&vec![]), "");
}

#[test]
fn track_renders_its_reply_block() {
    let t = Track {
        id: Some("xyz".to_string()),
        title: "A Song".to_string(),
        track_number: 9,
        disc_number: 2,
        duration: 245_800,
        artists: vec!["One".to_string(), "Two".to_string()],
        album: "The Album".to_string(),
        album_id: Some("alb".to_string()),
        album_artists: vec!["One".to_string()],
        url: "spotify:track:xyz".to_string(),
        added_at: Some(1_000_000),
        date: "2020-02-02".to_string(),
    };
    assert_eq!(
        t.to_mpd_format(4),
        vec![
            "file: xyz",
            "Artist: One;Two",
            "AlbumArtist: One",
            "Title: A Song",
            "Album: The Album",
            "Track: 9",
            "Date: 2020-02-02",
            "Time: 245",
            "duration: 245",
            "Pos: 4",
            "Id: 4",
        ]
    );
}

#[test]
fn state_names() {
    assert_eq!(PlayerEvent::Playing.as_str(), "play");
    assert_eq!(PlayerEvent::Paused.as_str(), "pause");
    assert_eq!(PlayerEvent::Stopped.as_str(), "stop");
    assert_eq!(PlayerEvent::FinishedTrack.as_str(), "stop");
}

#[test]
fn redirect_uri_is_built_from_the_configured_port() {
    let config = Config {
        spotify: Some(SpotifyConfig {
            client_id: Some("id".to_string()),
            client_secret: Some("secret".to_string()),
            port: Some(8888),
            username: Some("user".to_string()),
            password: Some("pass".to_string()),
        }),
        mpd: Some(MpdConfig {
            ip: Some("127.0.0.1".to_string()),
            port: Some(6600),
        }),
    };
    assert_eq!(config.get_redirect_uri(), "http://127.0.0.1:8888/callback");
}
