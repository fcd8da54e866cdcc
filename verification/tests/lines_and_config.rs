use notify_hook::config::{Config, ConfigContentType};
use notify_hook::errors::Error;
use notify_hook::hexcode::{hex_decode, hex_encode};
use notify_hook::lines::{parse_line, line_action, LineAction};

fn s(v: &str) -> String {
    v.to_string()
}

#[test]
fn parse_line_three_tokens() {
    let pl = parse_line("6b1bc10c d7b4c1baba master").unwrap();
    assert_eq!(pl.old, "6b1bc10c");
    assert_eq!(pl.new, "d7b4c1baba");
    assert_eq!(pl.ref_, "master");
}

#[test]
fn parse_line_trims_whitespace() {
    let pl = parse_line("  a b refs/heads/main \n").unwrap();
    assert_eq!(pl.old, "a");
    assert_eq!(pl.new, "b");
    assert_eq!(pl.ref_, "refs/heads/main");
}

#[test]
fn parse_line_rejects_two_tokens() {
    match parse_line("a b") {
        Err(Error::MalformedInput { found }) => assert_eq!(found, 2),
        other => panic!("expected malformed input, got {:?}", other),
    }
}

#[test]
fn parse_line_rejects_four_tokens() {
    match parse_line("a b c d") {
        Err(Error::MalformedInput { found }) => assert_eq!(found, 4),
        other => panic!("expected malformed input, got {:?}", other),
    }
}

#[test]
fn parse_line_rejects_empty_line() {
    match parse_line("") {
        Err(Error::MalformedInput { found }) => assert_eq!(found, 0),
        other => panic!("expected malformed input, got {:?}", other),
    }
}

#[test]
fn parse_line_counts_whitespace_separated_tokens() {
    // A run of blanks separates once: two tokens, not an empty third.
    match parse_line("a  b") {
        Err(Error::MalformedInput { found }) => assert_eq!(found, 2),
        other => panic!("expected malformed input, got {:?}", other),
    }
}

#[test]
fn parse_line_accepts_tabs_and_space_runs() {
    let pl = parse_line("a\tb   refs/heads/main").unwrap();
    assert_eq!(pl.old, "a");
    assert_eq!(pl.new, "b");
    assert_eq!(pl.ref_, "refs/heads/main");
}

#[test]
fn malformed_input_message_carries_the_count() {
    let e = parse_line("a b").unwrap_err();
    assert_eq!(
        e.message(),
        "expected 3 space separated values, <old-rev> <new-rev> <ref>, got: 2"
    );
}

#[test]
fn zero_old_revision_is_skipped() {
    let pl = parse_line("0000000000000000000000000000000000000000 d7b4c1b master").unwrap();
    assert_eq!(line_action(&pl), LineAction::Skip);
}

#[test]
fn zero_new_revision_is_skipped() {
    let pl = parse_line("d7b4c1b 0000000000000000000000000000000000000000 master").unwrap();
    assert_eq!(line_action(&pl), LineAction::Skip);
}

#[test]
fn ordinary_line_is_processed() {
    let pl = parse_line("6b1bc10c d7b4c1baba master").unwrap();
    assert_eq!(line_action(&pl), LineAction::Process);
}

fn from_values_ct(ct: Option<String>) -> Result<Config, Error> {
    Config::from_values(Some(s("r")), None, None, None, None, None, None, ct)
}

#[test]
fn bogus_content_type_is_a_configuration_error() {
    match from_values_ct(Some(s("bogus"))) {
        Err(Error::Configuration { detail }) => {
            assert_eq!(detail, "invalid content-type: bogus");
        }
        other => panic!("expected configuration error, got {:?}", other),
    }
}

#[test]
fn content_type_defaults_to_urlencoded() {
    let c = from_values_ct(None).unwrap();
    assert_eq!(c.content_type, ConfigContentType::UrlEncoded);
}

#[test]
fn content_type_json_is_accepted() {
    let c = from_values_ct(Some(s("json"))).unwrap();
    assert_eq!(c.content_type, ConfigContentType::Json);
}

#[test]
fn hook_urls_are_split_trimmed_and_filtered() {
    let c = Config::from_values(
        Some(s("r")),
        None,
        None,
        None,
        None,
        Some(s(" http://a.example/h, http://b.example/h ,, ")),
        None,
        None,
    )
    .unwrap();
    assert_eq!(c.hook_urls, vec![s("http://a.example/h"), s("http://b.example/h")]);
}

#[test]
fn secret_token_decodes_from_hex() {
    let c = Config::from_values(Some(s("r")), None, None, None, None, None, Some(s(" 0a1B ")), None)
        .unwrap();
    assert_eq!(c.secret_token, Some(vec![0x0a, 0x1b]));
}

#[test]
fn blank_secret_token_means_no_signing() {
    let c = Config::from_values(Some(s("r")), None, None, None, None, None, Some(s("   ")), None)
        .unwrap();
    assert_eq!(c.secret_token, None);
}

#[test]
fn invalid_secret_token_is_a_configuration_error() {
    match Config::from_values(Some(s("r")), None, None, None, None, None, Some(s("xyz")), None) {
        Err(Error::Configuration { .. }) => {}
        other => panic!("expected configuration error, got {:?}", other),
    }
}

#[test]
fn repo_name_falls_back_to_origin_url() {
    let c = Config::from_values(
        None,
        None,
        None,
        None,
        Some(s("git@example.com:owner/proj.git")),
        None,
        None,
        None,
    )
    .unwrap();
    assert_eq!(c.repo_name, "proj");
}

#[test]
fn explicit_repo_name_wins_over_origin_url() {
    let c = Config::from_values(
        Some(s("named")),
        None,
        None,
        None,
        Some(s("https://example.com/owner/proj.git")),
        None,
        None,
        None,
    )
    .unwrap();
    assert_eq!(c.repo_name, "named");
}

#[test]
fn inferred_name_without_git_suffix() {
    let c = Config::from_values(
        None,
        None,
        None,
        None,
        Some(s("https://example.com/owner/proj")),
        None,
        None,
        None,
    )
    .unwrap();
    assert_eq!(c.repo_name, "proj");
}

#[test]
fn hex_encode_is_uppercase() {
    assert_eq!(hex_encode(&vec![0x0f, 0xa0, 0x00, 0xff]), "0FA000FF");
}

#[test]
fn hex_decode_accepts_both_cases() {
    assert_eq!(hex_decode("0fA0").unwrap(), vec![0x0f, 0xa0]);
}

#[test]
fn hex_decode_rejects_odd_length() {
    match hex_decode("abc") {
        Err(Error::Configuration { .. }) => {}
        other => panic!("expected configuration error, got {:?}", other),
    }
}

#[test]
fn hex_decode_rejects_non_hex() {
    match hex_decode("zz") {
        Err(Error::Configuration { .. }) => {}
        other => panic!("expected configuration error, got {:?}", other),
    }
}
