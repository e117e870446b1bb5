use handy::live_insertion::{LiveInsertionCommand, LiveInsertionOptions, LiveInsertionPolicy};

fn typed(commands: &[LiveInsertionCommand]) -> String {
    let mut out = String::new();
    for c in commands {
        match c {
            LiveInsertionCommand::Type(t) => out.push_str(t),
            LiveInsertionCommand::TypeLeftover { text, .. } => out.push_str(text),
            _ => {}
        }
    }
    out
}

#[test]
fn growing_session_types_finalized_text_exactly_once() {
    let options = LiveInsertionOptions {
        trailing_space: true,
        auto_submit: true,
        copy_clipboard: true,
    };
    let (mut policy, mut all) = LiveInsertionPolicy::start(true, true, options);
    for snapshot in ["", "he", "hello", "hello", "hello wö", "hello wörld"] {
        all.extend(policy.on_stream_text(snapshot, "tentative"));
    }
    all.extend(policy.stop("hello wörld, bye"));
    assert_eq!(typed(&all), "hello wörld, bye");
    assert_eq!(
        all.last(),
        Some(&LiveInsertionCommand::CopyTranscript("hello wörld, bye".to_string()))
    );
}

#[test]
fn direct_failure_is_not_retried() {
    let (mut policy, _) = LiveInsertionPolicy::start(true, true, LiveInsertionOptions::default());
    let first = policy.on_stream_text("one", "");
    assert_eq!(first, vec![LiveInsertionCommand::Type("one".to_string())]);
    assert_eq!(policy.direct_failed(), vec![LiveInsertionCommand::ErrorContinue]);
    assert_eq!(policy.direct_failed(), vec![LiveInsertionCommand::ErrorContinue]);
    assert_eq!(
        policy.on_stream_text("one two", ""),
        vec![LiveInsertionCommand::Type(" two".to_string())]
    );
}

#[test]
fn extras_never_appear_mid_session() {
    let options = LiveInsertionOptions {
        trailing_space: true,
        auto_submit: true,
        copy_clipboard: true,
    };
    let (mut policy, start) = LiveInsertionPolicy::start(true, true, options);
    assert!(start.is_empty());
    for snapshot in ["a", "ab", "abc"] {
        for c in policy.on_stream_text(snapshot, "xyz") {
            assert!(matches!(c, LiveInsertionCommand::Type(_)));
        }
    }
    assert!(policy.cancel().is_empty());
}

#[test]
fn model_without_streaming_never_types() {
    let options = LiveInsertionOptions {
        trailing_space: true,
        auto_submit: true,
        copy_clipboard: true,
    };
    let (mut policy, start) = LiveInsertionPolicy::start(true, false, options);
    assert_eq!(start, vec![LiveInsertionCommand::Inactive]);
    assert!(policy.on_stream_text("hello", "").is_empty());
    assert!(policy.direct_failed().is_empty());
    assert!(policy.stop("hello").is_empty());
    let (_, quiet) = LiveInsertionPolicy::start(false, false, options);
    assert!(quiet.is_empty());
}

#[test]
fn stop_after_irregular_snapshots_types_only_the_rest() {
    // Snapshots that shrink, stall or end inside a character still leave the count
    // equal to what was typed, so the stop types exactly the rest.
    let (mut policy, _) = LiveInsertionPolicy::start(true, true, LiveInsertionOptions::default());
    let mut all = Vec::new();
    for snapshot in ["ab", "a", "ab", "xéa", "abc"] {
        all.extend(policy.on_stream_text(snapshot, ""));
        all.extend(policy.direct_failed());
    }
    assert_eq!(typed(&all), "abc");
    all.extend(policy.stop("abc def"));
    assert_eq!(typed(&all), "abc def");
}

#[test]
fn options_change_only_the_extras() {
    let extras = LiveInsertionOptions {
        trailing_space: true,
        auto_submit: true,
        copy_clipboard: true,
    };
    let (mut plain, _) = LiveInsertionPolicy::start(true, true, LiveInsertionOptions::default());
    let (mut rich, _) = LiveInsertionPolicy::start(true, true, extras);
    for (committed, tentative_a, tentative_b) in [("one", "x", "y"), ("one two", "", "zz")] {
        assert_eq!(
            plain.on_stream_text(committed, tentative_a),
            rich.on_stream_text(committed, tentative_b)
        );
    }
    assert_eq!(typed(&plain.stop("one two three")), typed(&rich.stop("one two three")));
}
