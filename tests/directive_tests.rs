use pocket_sentinel::directive::{affirmative, confirmation_title_str, parse_directive};
use pocket_sentinel::token::{
    command_from_token, command_token, decode_token, encode_token, EncodingError,
};

#[test]
fn plain_reply_has_no_command() {
    let d = parse_directive("The disk looks fine.");
    assert_eq!(d.preamble, "The disk looks fine.");
    assert!(d.command.is_none());
}

#[test]
fn reply_with_marker_splits_preamble_and_command() {
    let d = parse_directive("Sure, checking.\nRUN: uptime");
    assert_eq!(d.preamble, "Sure, checking.");
    assert_eq!(d.command.as_deref(), Some("uptime"));
}

#[test]
fn empty_command_falls_back_to_plain_answer() {
    let d = parse_directive("Nothing to do. RUN:   <code></code>  ");
    assert_eq!(d.preamble, "Nothing to do. RUN:   <code></code>  ");
    assert!(d.command.is_none());
}

#[test]
fn markup_around_command_is_stripped() {
    let d = parse_directive("RUN: <code><b>df -h</b></code>");
    assert_eq!(d.preamble, "");
    assert_eq!(d.command.as_deref(), Some("df -h"));
}

#[test]
fn only_first_marker_is_honoured() {
    let d = parse_directive("First RUN: ls RUN: pwd");
    assert_eq!(d.preamble, "First");
    assert_eq!(d.command.as_deref(), Some("ls RUN: pwd"));
}

#[test]
fn repeated_leading_markers_are_skipped() {
    let d = parse_directive("RUN:RUN: free -m");
    assert_eq!(d.command.as_deref(), Some("free -m"));
}

#[test]
fn confirmation_titles() {
    assert_eq!(confirmation_title_str("", "ls"), "AI suggests running: <code>ls</code>");
    assert_eq!(
        confirmation_title_str("Let me look.", "ls"),
        "Let me look.\n\nRunning command: <code>ls</code>"
    );
}

#[test]
fn affirmative_labels_are_exact() {
    assert!(affirmative("Run"));
    assert!(affirmative("Confirm"));
    assert!(affirmative("Execute"));
    assert!(!affirmative("run"));
    assert!(!affirmative("Skip"));
    assert!(!affirmative("✅ Run"));
}

#[test]
fn token_round_trip_on_bytes() {
    let samples: Vec<Vec<u8>> = vec![
        vec![],
        vec![0],
        vec![255, 254, 0, 1, 2],
        b"df -h /var && echo ok".to_vec(),
        (0u8..=255).collect(),
    ];
    for b in samples {
        let t = encode_token(&b);
        assert!(t.chars().all(|c| c.is_ascii_alphanumeric() || c == '+' || c == '/' || c == '='));
        assert_eq!(decode_token(&t), Ok(b));
    }
}

#[test]
fn token_of_known_command() {
    assert_eq!(command_token("ls"), "bHM=");
    assert_eq!(command_from_token("bHM=").unwrap(), "ls");
}

#[test]
fn bad_tokens_are_encoding_errors() {
    assert_eq!(decode_token("not base64!"), Err(EncodingError::NotBase64));
    assert_eq!(command_from_token("###").unwrap_err(), EncodingError::NotBase64);
    let t = encode_token(&[0xff, 0xfe]);
    assert_eq!(command_from_token(&t).unwrap_err(), EncodingError::NotUtf8);
}
