use srt_media::source_stream::{srt_endpoint, SourceKind, SrtEndpoint};
use srt_media::text::{
    chars_of, decimal_string, join_decimals, join_strings, parse_port, remove_pattern, starts_with,
};

#[test]
fn decimal_matches_to_string() {
    for n in [0u64, 1, 9, 10, 11, 99, 100, 147, 1234, 65535, 4294967295, u64::MAX - 1, u64::MAX] {
        assert_eq!(decimal_string(n), n.to_string());
    }
}

#[test]
fn joins() {
    assert_eq!(join_strings(&vec![], "|"), "");
    assert_eq!(join_strings(&vec!["a".to_string()], "|"), "a");
    assert_eq!(join_strings(&vec!["a".to_string(), "".to_string(), "ccc".to_string()], ", "), "a, , ccc");
    assert_eq!(join_decimals(&vec![], "|"), "");
    assert_eq!(join_decimals(&vec![1, 20, 300], "|"), "1|20|300");
}

#[test]
fn prefixes_and_removal() {
    assert!(starts_with("srt://host", "srt://"));
    assert!(!starts_with("srt:/", "srt://"));
    assert!(starts_with("abc", ""));
    assert_eq!(remove_pattern("srt://a/srt://b", "srt://"), "a/b");
    assert_eq!(remove_pattern("aaa", "aa"), "a");
    assert_eq!(remove_pattern("héllo wörld", "ö"), "héllo wrld");
    assert_eq!(remove_pattern("abc", ""), "abc");
    assert_eq!(remove_pattern("ab", "abc"), "ab");
    assert_eq!(chars_of("né"), vec!['n', 'é']);
}

#[test]
fn ports_read_like_parse() {
    for s in ["0", "80", "+80", "065535", "65535", "65536", "99999999999", "", "+", "-1", "8o", " 80", "3333", "++1"] {
        assert_eq!(parse_port(s), s.parse::<u16>().ok(), "{:?}", s);
    }
}

#[test]
fn source_kinds() {
    assert_eq!(SourceKind::from_url("srt://127.0.0.1:3333"), SourceKind::Srt);
    assert_eq!(SourceKind::from_url("/tmp/capture.ts"), SourceKind::File);
    assert_eq!(SourceKind::from_url("SRT://x"), SourceKind::File);
}

#[test]
fn srt_endpoints() {
    assert!(matches!(srt_endpoint("srt://:3333"), Some(SrtEndpoint::Listen { port: 3333 })));
    assert!(matches!(srt_endpoint("srt://:+80"), Some(SrtEndpoint::Listen { port: 80 })));
    assert!(srt_endpoint("srt://:70000").is_none());
    assert!(srt_endpoint("srt://:").is_none());
    match srt_endpoint("srt://127.0.0.1:3333") {
        Some(SrtEndpoint::Connect { address }) => assert_eq!(address, "127.0.0.1:3333"),
        _ => panic!("expected a caller"),
    }
    match srt_endpoint("srt://194.51.35.43:8998") {
        Some(SrtEndpoint::Connect { address }) => assert_eq!(address, "194.51.35.43:8998"),
        _ => panic!("expected a caller"),
    }
}
