use smoke_harness::assertion::{
    assert_contains, assert_empty, assert_not_contains, assert_trimmed_equals, AssertionFailure,
    Stream,
};
use smoke_harness::text::decode_output;

fn strings(v: &[&str]) -> Vec<String> {
    v.iter().map(|s| s.to_string()).collect()
}

#[test]
fn decode_output_accepts_utf8() {
    let text = decode_output("héllo\n".as_bytes().to_vec()).unwrap();
    assert_eq!(text, "héllo\n");
}

#[test]
fn decode_output_accepts_empty() {
    assert_eq!(decode_output(Vec::new()).unwrap(), "");
}

#[test]
fn decode_output_refuses_invalid_utf8() {
    let bytes = vec![b'o', b'k', 0xff, 0xfe];
    let err = decode_output(bytes.clone()).unwrap_err();
    assert_eq!(err.bytes, bytes);
}

#[test]
fn contains_all_expected_passes() {
    let text = "The PANTS_SOURCE mode is working.\nPants from sources argv: --no-verify-config -V.\n";
    let expected = strings(&[
        "Pants from sources argv: --no-verify-config -V.",
        "The PANTS_SOURCE mode is working.",
    ]);
    assert!(assert_contains(Stream::Stderr, text, &expected).is_ok());
}

#[test]
fn contains_nothing_expected_passes() {
    assert!(assert_contains(Stream::Stdout, "", &Vec::new()).is_ok());
}

#[test]
fn contains_is_case_sensitive() {
    let expected = strings(&["working"]);
    assert!(assert_contains(Stream::Stderr, "WORKING", &expected).is_err());
}

#[test]
fn contains_lists_every_missing_substring() {
    let text = "alpha beta";
    let expected = strings(&["gamma", "alpha", "delta"]);
    match assert_contains(Stream::Stderr, text, &expected) {
        Err(AssertionFailure::Missing { stream, missing, actual }) => {
            assert_eq!(stream, Stream::Stderr);
            assert_eq!(missing, strings(&["gamma", "delta"]));
            assert_eq!(actual, text);
        }
        other => panic!("unexpected result: {other:?}"),
    }
}

#[test]
fn missing_message_quotes_expected_and_actual() {
    let text = "captured text";
    let expected = strings(&["first wanted", "second wanted"]);
    let failure = assert_contains(Stream::Stdout, text, &expected).unwrap_err();
    let msg = failure.message();
    assert_eq!(
        msg,
        "STDOUT did not contain 'first wanted'\nSTDOUT did not contain 'second wanted'\nSTDOUT was:\ncaptured text"
    );
    assert!(msg.contains("first wanted"));
    assert!(msg.contains("second wanted"));
    assert!(msg.contains(text));
}

#[test]
fn not_contains_passes_and_fails() {
    assert!(assert_not_contains(Stream::Stderr, "all quiet", "Pants from sources argv").is_ok());
    let failure =
        assert_not_contains(Stream::Stderr, "Pants from sources argv: -V.", "Pants from sources argv")
            .unwrap_err();
    assert_eq!(
        failure.message(),
        "STDERR unexpectedly contained 'Pants from sources argv':\nPants from sources argv: -V."
    );
}

#[test]
fn trimmed_equality_ignores_surrounding_whitespace() {
    assert!(assert_trimmed_equals("2.17.0.dev4", "2.17.0.dev4\n").is_ok());
    assert!(assert_trimmed_equals("\nsubdir:cowsay\nsubdir:moo\n    ", "subdir:cowsay\nsubdir:moo\n").is_ok());
}

#[test]
fn trimmed_equality_keeps_inner_whitespace() {
    assert!(assert_trimmed_equals("a b", "a  b").is_err());
}

#[test]
fn trimmed_equality_failure_reports_trimmed_values() {
    match assert_trimmed_equals("  2.17.0.dev4 ", "2.15.0\n") {
        Err(f @ AssertionFailure::NotEqual { .. }) => {
            assert_eq!(f.message(), "expected '2.17.0.dev4' but found '2.15.0'");
        }
        other => panic!("unexpected result: {other:?}"),
    }
}

#[test]
fn empty_stream_check() {
    assert!(assert_empty(Stream::Stderr, "").is_ok());
    let failure = assert_empty(Stream::Stderr, "warning: x").unwrap_err();
    assert_eq!(failure.message(), "expected nothing on STDERR, found:\nwarning: x");
}

#[test]
fn version_config_scenario_output_matches() {
    // A config file pinning 2.17.0.dev4 and `-V` printing that version.
    let config = smoke_harness::fixtures::version_config("2.17.0.dev4");
    assert!(config.contains("pants_version = \"2.17.0.dev4\""));
    let stdout = decode_output(b"2.17.0.dev4\n".to_vec()).unwrap();
    assert!(assert_trimmed_equals("2.17.0.dev4", &stdout).is_ok());
}
