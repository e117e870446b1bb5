use handy::live_insertion::{
    lookahead_for_live_insertion, should_feed_silence_to_stream, LiveInsertionCommand,
    LiveInsertionLookahead, LiveInsertionOptions, LiveInsertionPolicy, LiveLookahead,
};

#[derive(Clone)]
enum Step {
    Stream {
        committed: &'static str,
        tentative: &'static str,
    },
    Stop(&'static str),
    Cancel,
    DirectFailed,
}

struct Case {
    name: &'static str,
    live_requested: bool,
    model_streams: bool,
    options: LiveInsertionOptions,
    steps: &'static [Step],
    expected: Vec<LiveInsertionCommand>,
}

fn collect(
    live_requested: bool,
    model_streams: bool,
    options: LiveInsertionOptions,
    steps: &[Step],
) -> Vec<LiveInsertionCommand> {
    let (mut policy, mut out) = LiveInsertionPolicy::start(live_requested, model_streams, options);
    for step in steps {
        let mut cmds = match step {
            Step::Stream {
                committed,
                tentative,
            } => policy.on_stream_text(committed, tentative),
            Step::Stop(finalized) => policy.stop(finalized),
            Step::Cancel => policy.cancel(),
            Step::DirectFailed => policy.direct_failed(),
        };
        out.append(&mut cmds);
    }
    out
}

fn type_cmd(s: &str) -> LiveInsertionCommand {
    LiveInsertionCommand::Type(s.to_string())
}

fn leftover(s: &str, trailing_space: bool) -> LiveInsertionCommand {
    LiveInsertionCommand::TypeLeftover {
        text: s.to_string(),
        trailing_space,
    }
}

fn copy_cmd(s: &str) -> LiveInsertionCommand {
    LiveInsertionCommand::CopyTranscript(s.to_string())
}

#[test]
fn live_insertion_policy_table() {
    let extras = LiveInsertionOptions {
        trailing_space: true,
        auto_submit: true,
        copy_clipboard: true,
    };
    let no_extras = LiveInsertionOptions::default();

    let cases = vec![
        Case {
            name: "two growing Committed Transcript snapshots emit two Committed Deltas and never re-type the prefix",
            live_requested: true,
            model_streams: true,
            options: no_extras,
            steps: &[
                Step::Stream {
                    committed: "hello",
                    tentative: "",
                },
                Step::Stream {
                    committed: "hello world",
                    tentative: "",
                },
            ],
            expected: vec![type_cmd("hello"), type_cmd(" world")],
        },
        Case {
            name: "Tentative Transcript growth alone emits no type command during a Dictation Session",
            live_requested: true,
            model_streams: true,
            options: no_extras,
            steps: &[
                Step::Stream {
                    committed: "",
                    tentative: "hello",
                },
                Step::Stream {
                    committed: "",
                    tentative: "hello there",
                },
            ],
            expected: vec![],
        },
        Case {
            name: "stop after remaining Tentative Transcript emits leftover equal to untyped finalized text",
            live_requested: true,
            model_streams: true,
            options: no_extras,
            steps: &[
                Step::Stream {
                    committed: "hello",
                    tentative: " there",
                },
                Step::Stop("hello there"),
            ],
            expected: vec![type_cmd("hello"), leftover(" there", false)],
        },
        Case {
            name: "stop after all Committed Transcript emits no leftover",
            live_requested: true,
            model_streams: true,
            options: no_extras,
            steps: &[
                Step::Stream {
                    committed: "hello",
                    tentative: "",
                },
                Step::Stop("hello"),
            ],
            expected: vec![type_cmd("hello")],
        },
        Case {
            name: "stop after all Committed Transcript still types trailing space when that setting is on",
            live_requested: true,
            model_streams: true,
            options: extras,
            steps: &[
                Step::Stream {
                    committed: "hello",
                    tentative: "",
                },
                Step::Stop("hello"),
            ],
            expected: vec![
                type_cmd("hello"),
                leftover("", true),
                LiveInsertionCommand::AutoSubmit,
                copy_cmd("hello"),
            ],
        },
        Case {
            name: "Cancel of a Dictation Session emits no leftover type command",
            live_requested: true,
            model_streams: true,
            options: extras,
            steps: &[
                Step::Stream {
                    committed: "hello",
                    tentative: " there",
                },
                Step::Cancel,
            ],
            expected: vec![type_cmd("hello")],
        },
        Case {
            name: "after Direct failure the next commit types only new Committed Delta growth",
            live_requested: true,
            model_streams: true,
            options: no_extras,
            steps: &[
                Step::Stream {
                    committed: "hello",
                    tentative: "",
                },
                Step::DirectFailed,
                Step::Stream {
                    committed: "hello world",
                    tentative: "",
                },
            ],
            expected: vec![
                type_cmd("hello"),
                LiveInsertionCommand::ErrorContinue,
                type_cmd(" world"),
            ],
        },
        Case {
            name: "auto-submit, trailing space, and copy-full-transcript occur only on stop leftover, not on mid-session Committed Deltas",
            live_requested: true,
            model_streams: true,
            options: extras,
            steps: &[
                Step::Stream {
                    committed: "hello",
                    tentative: " there",
                },
                Step::Stream {
                    committed: "hello",
                    tentative: " there friend",
                },
                Step::Stop("hello there friend"),
            ],
            expected: vec![
                type_cmd("hello"),
                leftover(" there friend", true),
                LiveInsertionCommand::AutoSubmit,
                copy_cmd("hello there friend"),
            ],
        },
        Case {
            name: "Live Insertion requested but model cannot stream yields Inactive and no live type commands",
            live_requested: true,
            model_streams: false,
            options: extras,
            steps: &[
                Step::Stream {
                    committed: "hello",
                    tentative: " there",
                },
                Step::Stop("hello there"),
            ],
            expected: vec![LiveInsertionCommand::Inactive],
        },
    ];

    for c in cases {
        let got = collect(c.live_requested, c.model_streams, c.options, c.steps);
        assert_eq!(got, c.expected, "{}", c.name);
    }
}

#[test]
fn live_insertion_off_keeps_accuracy_first_lookahead() {
    assert_eq!(
        lookahead_for_live_insertion(false, true, false),
        LiveLookahead::Default
    );
    assert_eq!(
        lookahead_for_live_insertion(false, false, true),
        LiveLookahead::Default
    );
}

#[test]
fn live_insertion_on_nemotron_uses_shortest_nonzero_menu_lookahead() {
    assert_eq!(
        lookahead_for_live_insertion(true, true, false),
        LiveLookahead::CacheAware {
            att_context_right: 3
        }
    );
}

#[test]
fn live_insertion_on_unified_uses_smallest_on_menu_chunk_and_right() {
    assert_eq!(
        lookahead_for_live_insertion(true, false, true),
        LiveLookahead::ChunkedBuffered {
            chunk_ms: 80,
            right_ms: 0
        }
    );
}

#[test]
fn live_insertion_on_without_family_extension_stays_default() {
    assert_eq!(
        lookahead_for_live_insertion(true, false, false),
        LiveLookahead::Default
    );
}

#[test]
fn silence_feeding_only_when_live_insertion_is_active() {
    assert!(should_feed_silence_to_stream(true));
    assert!(!should_feed_silence_to_stream(false));
}

#[test]
fn cache_aware_wins_over_chunked_when_both_are_accepted() {
    assert_eq!(
        lookahead_for_live_insertion(true, true, true),
        LiveLookahead::CacheAware {
            att_context_right: 3
        }
    );
    assert_eq!(
        lookahead_for_live_insertion(false, true, true),
        LiveLookahead::Default
    );
}

#[test]
fn multibyte_deltas_split_on_character_boundaries() {
    let (mut policy, start) =
        LiveInsertionPolicy::start(true, true, LiveInsertionOptions::default());
    assert!(start.is_empty());
    assert_eq!(policy.on_stream_text("héllo", ""), vec![type_cmd("héllo")]);
    assert_eq!(
        policy.on_stream_text("héllo wörld", ""),
        vec![type_cmd(" wörld")]
    );
    assert_eq!(policy.stop("héllo wörld ✓"), vec![leftover(" ✓", false)]);
}

#[test]
fn snapshot_whose_acked_offset_is_inside_a_character_types_nothing() {
    // "ab" is two bytes; "é" is two bytes, so offset 2 falls inside "éa".
    let (mut policy, _) = LiveInsertionPolicy::start(true, true, LiveInsertionOptions::default());
    assert_eq!(policy.on_stream_text("ab", ""), vec![type_cmd("ab")]);
    assert_eq!(policy.on_stream_text("xéa", ""), vec![]);
    assert_eq!(policy.stop("xéa"), vec![]);
}

#[test]
fn shorter_snapshot_types_nothing() {
    let (mut policy, _) = LiveInsertionPolicy::start(true, true, LiveInsertionOptions::default());
    assert_eq!(policy.on_stream_text("hello world", ""), vec![type_cmd("hello world")]);
    assert_eq!(policy.on_stream_text("hello", ""), vec![]);
    assert_eq!(policy.on_stream_text("hello world!", ""), vec![type_cmd("!")]);
}

#[test]
fn live_insertion_not_requested_does_nothing() {
    let extras = LiveInsertionOptions {
        trailing_space: true,
        auto_submit: true,
        copy_clipboard: true,
    };
    let (mut policy, start) = LiveInsertionPolicy::start(false, true, extras);
    assert!(start.is_empty());
    assert!(!policy.live_active());
    assert!(policy.on_stream_text("hello", "").is_empty());
    assert!(policy.direct_failed().is_empty());
    assert!(policy.stop("hello there").is_empty());
    assert!(policy.cancel().is_empty());
}

#[test]
fn live_active_needs_request_and_streaming_model() {
    let o = LiveInsertionOptions::default();
    assert!(LiveInsertionPolicy::start(true, true, o).0.live_active());
    assert!(!LiveInsertionPolicy::start(true, false, o).0.live_active());
    assert!(!LiveInsertionPolicy::start(false, true, o).0.live_active());
    assert!(!LiveInsertionPolicy::start(false, false, o).0.live_active());
}

#[test]
fn stop_with_only_auto_submit_and_no_leftover() {
    let options = LiveInsertionOptions {
        trailing_space: false,
        auto_submit: true,
        copy_clipboard: false,
    };
    let (mut policy, _) = LiveInsertionPolicy::start(true, true, options);
    assert_eq!(policy.on_stream_text("done", ""), vec![type_cmd("done")]);
    assert_eq!(policy.stop("done"), vec![LiveInsertionCommand::AutoSubmit]);
}

#[test]
fn nothing_is_inserted_after_cancel() {
    let extras = LiveInsertionOptions {
        trailing_space: true,
        auto_submit: true,
        copy_clipboard: true,
    };
    let (mut policy, _) = LiveInsertionPolicy::start(true, true, extras);
    assert_eq!(policy.on_stream_text("hello", ""), vec![type_cmd("hello")]);
    assert!(policy.live_active());
    assert!(policy.cancel().is_empty());
    assert!(policy.live_active());
    assert!(policy.on_stream_text("hello world", "").is_empty());
    assert_eq!(policy.direct_failed(), vec![LiveInsertionCommand::ErrorContinue]);
    assert!(policy.stop("hello world").is_empty());
    assert!(policy.cancel().is_empty());
    assert!(policy.live_active());
}

#[test]
fn lookahead_presets_are_read_by_exact_name() {
    assert_eq!(
        LiveInsertionLookahead::from_name("fastest"),
        Some(LiveInsertionLookahead::Fastest)
    );
    assert_eq!(
        LiveInsertionLookahead::from_name("fast"),
        Some(LiveInsertionLookahead::Fast)
    );
    assert_eq!(
        LiveInsertionLookahead::from_name("balanced"),
        Some(LiveInsertionLookahead::Balanced)
    );
    assert_eq!(
        LiveInsertionLookahead::from_name("accurate"),
        Some(LiveInsertionLookahead::Accurate)
    );
    assert_eq!(LiveInsertionLookahead::from_name("Fast"), None);
    assert_eq!(LiveInsertionLookahead::from_name("faster"), None);
    assert_eq!(LiveInsertionLookahead::from_name(""), None);
}

#[test]
fn options_default_has_no_extras() {
    let o = LiveInsertionOptions::default();
    assert!(!o.trailing_space && !o.auto_submit && !o.copy_clipboard);
}
