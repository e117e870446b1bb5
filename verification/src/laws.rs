//! What holds of the Live Insertion policy across calls, and of the command line
//! across inputs, proved over the transitions that the executable code follows.
use crate::cli::{lookahead_in_argv, CliArgs, CliUsageError};
use crate::live_insertion::{
    command_text,
    leftover_text,
    lookahead_named,
    typed_text,
    CommandView,
    live_lookahead,
    LiveInsertionLookahead,
    LiveInsertionOptions,
    LiveInsertionState,
    LiveLookahead,
};
use crate::text::{byte_len, bytes_after, lemma_bytes_after_len, lemma_bytes_after_prefix, lemma_encode_concat};
use vstd::prelude::*;

verus! {

/// Feeds the Committed Transcript snapshots one after the other.
pub open spec fn stream_all(state: LiveInsertionState, snapshots: Seq<Seq<char>>) -> (
    LiveInsertionState,
    Seq<CommandView>,
)
    decreases snapshots.len(),
{
    if snapshots.len() == 0 {
        (state, Seq::empty())
    } else {
        let (next, first) = state.stream_text(snapshots[0]);
        let (last, rest) = stream_all(next, snapshots.drop_first());
        (last, first + rest)
    }
}

/// Each snapshot of Committed Transcript extends the ones before it.
pub open spec fn only_grows(snapshots: Seq<Seq<char>>) -> bool {
    forall|i: int, j: int|
        0 <= i <= j < snapshots.len() ==> #[trigger] snapshots[i].is_prefix_of(
            #[trigger] snapshots[j],
        )
}

/// A single command types its own text.
pub proof fn lemma_typed_text_one(command: CommandView)
    ensures
        typed_text(seq![command]) == command_text(command),
{
    let one = seq![command];
    let none = Seq::<CommandView>::empty();
    assert(typed_text(none) == Seq::<char>::empty());
    assert(one.drop_last() =~= none);
    assert(one.last() == command);
    assert(Seq::<char>::empty() + command_text(command) =~= command_text(command));
}

/// The text typed by a run of commands followed by another is the two texts in turn.
pub proof fn lemma_typed_text_concat(a: Seq<CommandView>, b: Seq<CommandView>)
    ensures
        typed_text(a + b) == typed_text(a) + typed_text(b),
    decreases b.len(),
{
    if b.len() == 0 {
        assert(a + b =~= a);
        assert(typed_text(a) + typed_text(b) =~= typed_text(a));
    } else {
        lemma_typed_text_concat(a, b.drop_last());
        assert((a + b).drop_last() =~= a + b.drop_last());
        assert((a + b).last() == b.last());
        assert(typed_text(a + b) =~= typed_text(a) + typed_text(b));
    }
}

/// Once the first characters of the Committed Transcript have been typed, a snapshot
/// that extends them types exactly the characters after them, in one Committed
/// Delta, and nothing when it adds none: the typed prefix is never typed again.
pub proof fn law_stream_types_only_new_growth(
    state: LiveInsertionState,
    typed: Seq<char>,
    committed: Seq<char>,
)
    requires
        state.inserts_text(),
        state.acked_len == byte_len(typed),
        typed.is_prefix_of(committed),
    ensures
        state.stream_text(committed).0 == state.with_acked(byte_len(committed)),
        typed + typed_text(state.stream_text(committed).1) == committed,
        typed.len() < committed.len() ==> state.stream_text(committed).1 == seq![
            CommandView::Type(committed.skip(typed.len() as int)),
        ],
        typed.len() == committed.len() ==> state.stream_text(committed).1.len() == 0,
{
    lemma_bytes_after_prefix(typed, committed);
    let cmds = state.stream_text(committed).1;
    if typed.len() < committed.len() {
        lemma_typed_text_one(CommandView::Type(committed.skip(typed.len() as int)));
        assert(typed + committed.skip(typed.len() as int) =~= committed);
    } else {
        assert(typed =~= committed);
        assert(typed + Seq::<char>::empty() =~= committed);
    }
}

/// A normal stop after the first characters of the finalized text have been typed
/// types exactly the rest of it (the leftover), never the whole session again.
pub proof fn law_stop_types_only_leftover(
    state: LiveInsertionState,
    typed: Seq<char>,
    finalized: Seq<char>,
)
    requires
        state.inserts_text(),
        state.acked_len == byte_len(typed),
        typed.is_prefix_of(finalized),
    ensures
        state.stopped(finalized).0 == state.with_acked(byte_len(finalized)),
        typed + typed_text(state.stopped(finalized).1) == finalized,
        leftover_text(finalized, state.acked_len) == finalized.skip(typed.len() as int),
{
    lemma_bytes_after_prefix(typed, finalized);
    let leftover = finalized.skip(typed.len() as int);
    assert(typed + leftover =~= finalized);
    if typed.len() == finalized.len() {
        assert(leftover =~= Seq::<char>::empty());
    }
    assert(leftover_text(finalized, state.acked_len) == leftover);
    lemma_stop_text(state, finalized);
}

/// Every command is a Committed Delta with at least one character.
pub open spec fn only_deltas(commands: Seq<CommandView>) -> bool {
    forall|i: int|
        0 <= i < commands.len() ==> #[trigger] commands[i] is Type && command_text(
            commands[i],
        ).len() > 0
}

/// Streaming snapshots that only grow, after their first `typed` characters have been
/// typed, types the rest of the last snapshot exactly once, in order, as non-empty
/// Committed Deltas only.
pub proof fn law_growing_snapshots_type_each_character_once(
    state: LiveInsertionState,
    typed: Seq<char>,
    snapshots: Seq<Seq<char>>,
)
    requires
        state.inserts_text(),
        state.acked_len == byte_len(typed),
        only_grows(snapshots),
        snapshots.len() > 0 ==> typed.is_prefix_of(snapshots[0]),
    ensures
        ({
            let last = if snapshots.len() == 0 {
                typed
            } else {
                snapshots.last()
            };
            &&& stream_all(state, snapshots).0 == state.with_acked(byte_len(last))
            &&& typed + typed_text(stream_all(state, snapshots).1) == last
            &&& only_deltas(stream_all(state, snapshots).1)
        }),
    decreases snapshots.len(),
{
    if snapshots.len() == 0 {
        assert(typed + Seq::<char>::empty() =~= typed);
        assert(state.with_acked(byte_len(typed)) == state);
    } else {
        let first = snapshots[0];
        law_stream_types_only_new_growth(state, typed, first);
        let (next, cmds) = state.stream_text(first);
        let tail = snapshots.drop_first();
        assert(only_grows(tail)) by {
            assert forall|i: int, j: int| 0 <= i <= j < tail.len() implies #[trigger] tail[i].is_prefix_of(
                #[trigger] tail[j],
            ) by {
                assert(snapshots[i + 1].is_prefix_of(snapshots[j + 1]));
            }
        }
        if tail.len() > 0 {
            assert(snapshots[0].is_prefix_of(snapshots[1]));
        }
        law_growing_snapshots_type_each_character_once(next, first, tail);
        let rest = stream_all(next, tail).1;
        lemma_typed_text_concat(cmds, rest);
        assert(typed + typed_text(cmds + rest) =~= (typed + typed_text(cmds)) + typed_text(rest));
        if tail.len() > 0 {
            assert(tail.last() == snapshots.last());
        }
        assert(only_deltas(cmds + rest)) by {
            assert forall|i: int| 0 <= i < (cmds + rest).len() implies #[trigger] (cmds
                + rest)[i] is Type && command_text((cmds + rest)[i]).len() > 0 by {
                if i < cmds.len() {
                    assert((cmds + rest)[i] == cmds[i]);
                } else {
                    assert((cmds + rest)[i] == rest[i - cmds.len()]);
                }
            }
        }
    }
}

/// Over a whole Dictation Session with Live Insertion active, where Committed
/// Transcript only grows and the finalized text extends its last snapshot,
/// everything direct-typed (the Committed Deltas, then the leftover on stop) is
/// the finalized text, each character exactly once and in order.
pub proof fn law_session_types_transcript_once(
    options: LiveInsertionOptions,
    snapshots: Seq<Seq<char>>,
    finalized: Seq<char>,
)
    requires
        only_grows(snapshots),
        snapshots.len() > 0 ==> snapshots.last().is_prefix_of(finalized),
    ensures
        ({
            let (started, opening) = LiveInsertionState::started(true, true, options);
            let (streamed, deltas) = stream_all(started, snapshots);
            let (_, closing) = streamed.stopped(finalized);
            typed_text(opening + deltas + closing) == finalized
        }),
{
    let (started, opening) = LiveInsertionState::started(true, true, options);
    let nothing = Seq::<char>::empty();
    lemma_bytes_after_prefix(nothing, nothing);
    assert(byte_len(nothing) == 0) by {
        assert(vstd::utf8::encode_utf8(nothing) =~= Seq::<u8>::empty());
    }
    if snapshots.len() > 0 {
        assert(nothing.is_prefix_of(snapshots[0]));
    }
    law_growing_snapshots_type_each_character_once(started, nothing, snapshots);
    let last = if snapshots.len() == 0 {
        nothing
    } else {
        snapshots.last()
    };
    let (streamed, deltas) = stream_all(started, snapshots);
    assert(nothing.is_prefix_of(finalized));
    law_stop_types_only_leftover(streamed, last, finalized);
    let closing = streamed.stopped(finalized).1;
    assert(opening =~= Seq::<CommandView>::empty());
    lemma_typed_text_concat(opening, deltas);
    lemma_typed_text_concat(opening + deltas, closing);
    assert(typed_text(opening) =~= nothing);
    assert(nothing + typed_text(deltas) =~= typed_text(deltas));
    assert(typed_text(opening + deltas + closing) =~= (nothing + typed_text(deltas))
        + typed_text(closing));
}

/// An event of a Dictation Session before it stops or is cancelled.
pub enum SessionEvent {
    /// A snapshot of Committed Transcript arrives (whatever the Tentative Transcript).
    Snapshot(Seq<char>),
    /// A Direct increment failed.
    DirectFailed,
}

/// The transition that an event takes.
pub open spec fn apply_event(state: LiveInsertionState, event: SessionEvent) -> (
    LiveInsertionState,
    Seq<CommandView>,
) {
    match event {
        SessionEvent::Snapshot(committed) => state.stream_text(committed),
        SessionEvent::DirectFailed => state.direct_failure(),
    }
}

/// Applies the events in order, collecting the commands.
pub open spec fn run_events(state: LiveInsertionState, events: Seq<SessionEvent>) -> (
    LiveInsertionState,
    Seq<CommandView>,
)
    decreases events.len(),
{
    if events.len() == 0 {
        (state, Seq::empty())
    } else {
        let (next, first) = apply_event(state, events[0]);
        let (last, rest) = run_events(next, events.drop_first());
        (last, first + rest)
    }
}

/// Two states that differ at most in their options.
pub open spec fn same_but_options(a: LiveInsertionState, b: LiveInsertionState) -> bool {
    &&& a.live_requested == b.live_requested
    &&& a.model_streams == b.model_streams
    &&& a.cancelled == b.cancelled
    &&& a.acked_len == b.acked_len
}

/// Whatever snapshots arrive and whatever Direct increments fail, in any order, the
/// policy's count of accounted bytes stays the byte length of the text it has typed:
/// each Committed Delta it types is exactly the bytes past that count. Nothing but
/// the count changes.
pub proof fn law_counter_tracks_typed_text(
    state: LiveInsertionState,
    typed: Seq<char>,
    events: Seq<SessionEvent>,
)
    requires
        state.acked_len == byte_len(typed),
    ensures
        run_events(state, events).0 == state.with_acked(
            byte_len(typed + typed_text(run_events(state, events).1)),
        ),
    decreases events.len(),
{
    if events.len() == 0 {
        assert(typed + typed_text(Seq::<CommandView>::empty()) =~= typed);
    } else {
        let (next, first) = apply_event(state, events[0]);
        let step_typed = typed + typed_text(first);
        assert(next.acked_len == byte_len(step_typed) && next == state.with_acked(next.acked_len)) by {
            if first.len() == 0 {
                assert(typed_text(first) =~= Seq::<char>::empty());
                assert(step_typed =~= typed);
            } else {
                match events[0] {
                    SessionEvent::Snapshot(committed) => {
                        let delta = bytes_after(committed, state.acked_len);
                        lemma_typed_text_one(CommandView::Type(delta));
                        lemma_bytes_after_len(committed, state.acked_len);
                        lemma_encode_concat(typed, delta);
                    },
                    SessionEvent::DirectFailed => {
                        lemma_typed_text_one(CommandView::ErrorContinue);
                        assert(step_typed =~= typed);
                    },
                }
            }
        }
        law_counter_tracks_typed_text(next, step_typed, events.drop_first());
        let rest = run_events(next, events.drop_first()).1;
        lemma_typed_text_concat(first, rest);
        assert(step_typed + typed_text(rest) =~= typed + typed_text(first + rest));
    }
}

/// Whatever snapshots arrived since the start (growing or not) and whatever Direct
/// increments failed, a normal stop whose finalized text extends what was typed
/// types exactly the rest of it: every character reaches the Target Application
/// once, nothing already typed is typed again, and a copy carries the whole text.
pub proof fn law_stop_types_rest_after_any_snapshots(
    options: LiveInsertionOptions,
    events: Seq<SessionEvent>,
    finalized: Seq<char>,
)
    requires
        typed_text(
            run_events(LiveInsertionState::started(true, true, options).0, events).1,
        ).is_prefix_of(finalized),
    ensures
        ({
            let (session, sent) = run_events(
                LiveInsertionState::started(true, true, options).0,
                events,
            );
            let closing = session.stopped(finalized).1;
            &&& typed_text(sent) + typed_text(closing) == finalized
            &&& options.copy_clipboard ==> closing.last() == CommandView::CopyTranscript(
                finalized,
            )
        }),
{
    let started = LiveInsertionState::started(true, true, options).0;
    let nothing = Seq::<char>::empty();
    assert(byte_len(nothing) == 0) by {
        assert(vstd::utf8::encode_utf8(nothing) =~= Seq::<u8>::empty());
    }
    law_counter_tracks_typed_text(started, nothing, events);
    let (session, sent) = run_events(started, events);
    assert(nothing + typed_text(sent) =~= typed_text(sent));
    law_stop_types_only_leftover(session, typed_text(sent), finalized);
}

/// Whether Live Insertion is active is fixed at the start, from the request and the
/// model: no snapshot, stop, Cancel or Direct failure changes it.
pub proof fn law_live_active_never_changes(
    state: LiveInsertionState,
    committed: Seq<char>,
    finalized: Seq<char>,
    events: Seq<SessionEvent>,
    live_requested: bool,
    model_streams: bool,
    options: LiveInsertionOptions,
)
    ensures
        LiveInsertionState::started(live_requested, model_streams, options).0.live_active() == (
        live_requested && model_streams),
        state.stream_text(committed).0.live_active() == state.live_active(),
        state.stopped(finalized).0.live_active() == state.live_active(),
        state.after_cancel().0.live_active() == state.live_active(),
        state.direct_failure().0.live_active() == state.live_active(),
        run_events(state, events).0.live_active() == state.live_active(),
    decreases events.len(),
{
    if events.len() > 0 {
        let next = apply_event(state, events[0]).0;
        law_live_active_never_changes(
            next,
            committed,
            finalized,
            events.drop_first(),
            live_requested,
            model_streams,
            options,
        );
    }
}

/// The options (trailing space, auto-submit, copy) never reach a Committed Delta:
/// two policies that differ only in their options emit the same commands for the
/// same snapshots and failures, stay alike, and type the same text on stop. The
/// Tentative Transcript does not enter at all (see `on_stream_text`).
pub proof fn law_options_never_reach_typed_text(
    a: LiveInsertionState,
    b: LiveInsertionState,
    events: Seq<SessionEvent>,
    finalized: Seq<char>,
)
    requires
        same_but_options(a, b),
    ensures
        run_events(a, events).1 == run_events(b, events).1,
        same_but_options(run_events(a, events).0, run_events(b, events).0),
        same_but_options(a.stopped(finalized).0, b.stopped(finalized).0),
        typed_text(a.stopped(finalized).1) == typed_text(b.stopped(finalized).1),
    decreases events.len(),
{
    if events.len() > 0 {
        law_options_never_reach_typed_text(
            apply_event(a, events[0]).0,
            apply_event(b, events[0]).0,
            events.drop_first(),
            finalized,
        );
    }
    if a.inserts_text() {
        lemma_stop_text(a, finalized);
        lemma_stop_text(b, finalized);
    }
}

/// A stop types exactly the leftover.
pub proof fn lemma_stop_text(state: LiveInsertionState, finalized: Seq<char>)
    requires
        state.inserts_text(),
    ensures
        typed_text(state.stopped(finalized).1) == leftover_text(finalized, state.acked_len),
{
    let leftover = leftover_text(finalized, state.acked_len);
    let o = state.options;
    let first = if leftover.len() > 0 || o.trailing_space {
        seq![CommandView::TypeLeftover { text: leftover, trailing_space: o.trailing_space }]
    } else {
        Seq::empty()
    };
    let submit = if o.auto_submit {
        seq![CommandView::AutoSubmit]
    } else {
        Seq::<CommandView>::empty()
    };
    let copy = if o.copy_clipboard {
        seq![CommandView::CopyTranscript(finalized)]
    } else {
        Seq::<CommandView>::empty()
    };
    assert(typed_text(first) =~= leftover) by {
        if first.len() > 0 {
            lemma_typed_text_one(first[0]);
            assert(first =~= seq![first[0]]);
        } else {
            assert(leftover =~= Seq::<char>::empty());
        }
    }
    assert(typed_text(submit) =~= Seq::<char>::empty()) by {
        if submit.len() > 0 {
            lemma_typed_text_one(CommandView::AutoSubmit);
        }
    }
    assert(typed_text(copy) =~= Seq::<char>::empty()) by {
        if copy.len() > 0 {
            lemma_typed_text_one(CommandView::CopyTranscript(finalized));
        }
    }
    lemma_typed_text_concat(first, submit);
    lemma_typed_text_concat(first + submit, copy);
    assert(state.stopped(finalized).1 == first + submit + copy);
    assert(leftover + Seq::<char>::empty() + Seq::<char>::empty() =~= leftover);
}

/// Auto-submit, trailing space and copying the transcript come only from a normal
/// stop: a snapshot types only Committed Deltas, a Direct failure only reports
/// itself, and Cancel emits nothing.
pub proof fn law_extras_only_on_stop(state: LiveInsertionState, committed: Seq<char>)
    ensures
        forall|i: int|
            0 <= i < state.stream_text(committed).1.len() ==> #[trigger] state.stream_text(
                committed,
            ).1[i] is Type,
        forall|i: int|
            0 <= i < state.direct_failure().1.len() ==> #[trigger] state.direct_failure().1[i]
                is ErrorContinue,
        state.after_cancel().1.len() == 0,
{
}

/// After Cancel, Handy inserts no further text in the Dictation Session and leaves
/// what it already typed alone: later snapshots and a stop emit nothing and change
/// nothing, a Direct failure is still only reported, cancelling again emits nothing,
/// and whether Live Insertion is active stays as it was.
pub proof fn law_nothing_inserted_after_cancel(
    state: LiveInsertionState,
    committed: Seq<char>,
    finalized: Seq<char>,
)
    ensures
        state.after_cancel().1.len() == 0,
        state.after_cancel().0.live_active() == state.live_active(),
        !state.after_cancel().0.inserts_text(),
        state.after_cancel().0.stream_text(committed) == (
            state.after_cancel().0,
            Seq::<CommandView>::empty(),
        ),
        state.after_cancel().0.stopped(finalized) == (
            state.after_cancel().0,
            Seq::<CommandView>::empty(),
        ),
        state.after_cancel().0.direct_failure().0 == state.after_cancel().0,
        typed_text(state.after_cancel().0.direct_failure().1) == Seq::<char>::empty(),
        state.after_cancel().0.after_cancel() == (
            state.after_cancel().0,
            Seq::<CommandView>::empty(),
        ),
{
    let cancelled = state.after_cancel().0;
    if cancelled.live_active() {
        lemma_typed_text_one(CommandView::ErrorContinue);
    }
}

/// When the model cannot stream, Live Insertion never types, submits or copies
/// anything and never changes state: only the start reports it as inactive.
pub proof fn law_inactive_without_streaming_model(
    state: LiveInsertionState,
    committed: Seq<char>,
    finalized: Seq<char>,
    live_requested: bool,
    options: LiveInsertionOptions,
)
    requires
        !state.model_streams,
    ensures
        state.stream_text(committed) == (state, Seq::<CommandView>::empty()),
        state.stopped(finalized) == (state, Seq::<CommandView>::empty()),
        state.direct_failure() == (state, Seq::<CommandView>::empty()),
        LiveInsertionState::started(live_requested, false, options).1 == (if live_requested {
            seq![CommandView::Inactive]
        } else {
            Seq::<CommandView>::empty()
        }),
{
}

/// A failed Direct increment is dropped, not retried: the next snapshot types only
/// the growth past what was already sent, as if the failure had not happened.
pub proof fn law_failed_increment_not_retried(
    state: LiveInsertionState,
    typed: Seq<char>,
    committed: Seq<char>,
)
    requires
        state.inserts_text(),
        state.acked_len == byte_len(typed),
        typed.is_prefix_of(committed),
    ensures
        state.direct_failure().0 == state,
        typed + typed_text(state.direct_failure().0.stream_text(committed).1) == committed,
{
    law_stream_types_only_new_growth(state, typed, committed);
}

/// Options that pass the strict rules never carry a Lookahead Override or the
/// Live Insertion flag without a start flag, and `--quit` comes alone.
pub proof fn law_strict_options_are_consistent(args: CliArgs)
    requires
        args.strict_violation() is None,
    ensures
        args.lookahead is Some ==> args.has_start(),
        args.live_insertion ==> args.has_start(),
        args.quit ==> !args.has_other_action(),
{
}

/// The two spellings `--lookahead NAME` and `--lookahead=NAME` read back the same
/// preset from a forwarded argv, whatever follows, when nothing before them names
/// a Lookahead.
pub proof fn law_lookahead_spellings_agree(
    before: Seq<Seq<char>>,
    name: Seq<char>,
    after: Seq<Seq<char>>,
)
    requires
        forall|i: int|
            0 <= i < before.len() ==> !"--lookahead="@.is_prefix_of(#[trigger] before[i])
                && before[i] != "--lookahead"@,
    ensures
        lookahead_in_argv(before + seq!["--lookahead"@, name] + after) == lookahead_named(name),
        lookahead_in_argv(before + seq!["--lookahead="@ + name] + after) == lookahead_named(
            name,
        ),
    decreases before.len(),
{
    reveal_strlit("--lookahead");
    reveal_strlit("--lookahead=");
    let spaced = before + seq!["--lookahead"@, name] + after;
    let joined = before + seq!["--lookahead="@ + name] + after;
    if before.len() == 0 {
        assert(spaced[0] == "--lookahead"@);
        assert(spaced[1] == name);
        assert(!"--lookahead="@.is_prefix_of("--lookahead"@));
        assert(joined[0] == "--lookahead="@ + name);
        assert("--lookahead="@.is_prefix_of(joined[0]));
        assert(joined[0].skip("--lookahead="@.len() as int) =~= name);
    } else {
        law_lookahead_spellings_agree(before.drop_first(), name, after);
        assert(spaced[0] == before[0]);
        assert(joined[0] == before[0]);
        assert(spaced.drop_first() =~= before.drop_first() + seq!["--lookahead"@, name] + after);
        assert(joined.drop_first() =~= before.drop_first() + seq!["--lookahead="@ + name]
            + after);
    }
}

/// What a normal stop emits, in terms of the options alone: with Live Insertion
/// active and not cancelled, exactly one `AutoSubmit` when and only when auto-submit
/// is on, and exactly one copy of the whole finalized text when and only when copying
/// is on, whatever the leftover and the trailing space; a `TypeLeftover` (carrying the
/// trailing-space setting) whenever there is leftover text or a trailing space to type;
/// nothing else; and in the order leftover, submit, copy.
pub proof fn law_stop_extras_follow_options(state: LiveInsertionState, finalized: Seq<char>)
    requires
        state.inserts_text(),
    ensures
        ({
            let c = state.stopped(finalized).1;
            let o = state.options;
            let leftover = leftover_text(finalized, state.acked_len);
            &&& (exists|i: int| 0 <= i < c.len() && #[trigger] c[i] is AutoSubmit)
                <==> o.auto_submit
            &&& (exists|i: int| 0 <= i < c.len() && #[trigger] c[i] is CopyTranscript)
                <==> o.copy_clipboard
            &&& (exists|i: int| 0 <= i < c.len() && #[trigger] c[i] is TypeLeftover) <==> (
            leftover.len() > 0 || o.trailing_space)
            &&& forall|i: int|
                0 <= i < c.len() ==> (#[trigger] c[i] is TypeLeftover || c[i] is AutoSubmit
                    || c[i] is CopyTranscript)
            &&& forall|i: int, j: int|
                0 <= i < c.len() && 0 <= j < c.len() && #[trigger] c[i] is AutoSubmit
                    && #[trigger] c[j] is AutoSubmit ==> i == j
            &&& forall|i: int, j: int|
                0 <= i < c.len() && 0 <= j < c.len() && #[trigger] c[i] is CopyTranscript
                    && #[trigger] c[j] is CopyTranscript ==> i == j
            &&& forall|i: int, j: int|
                0 <= i < c.len() && 0 <= j < c.len() && #[trigger] c[i] is TypeLeftover
                    && #[trigger] c[j] is TypeLeftover ==> i == j
            &&& forall|i: int, j: int|
                0 <= i < c.len() && 0 <= j < c.len() && #[trigger] c[i] is TypeLeftover
                    && #[trigger] c[j] is AutoSubmit ==> i < j
            &&& forall|i: int, j: int|
                0 <= i < c.len() && 0 <= j < c.len() && #[trigger] c[i] is AutoSubmit
                    && #[trigger] c[j] is CopyTranscript ==> i < j
            &&& forall|i: int, j: int|
                0 <= i < c.len() && 0 <= j < c.len() && #[trigger] c[i] is TypeLeftover
                    && #[trigger] c[j] is CopyTranscript ==> i < j
            &&& forall|i: int|
                0 <= i < c.len() ==> (#[trigger] c[i] matches CommandView::TypeLeftover {
                    text,
                    trailing_space,
                } ==> text == leftover && trailing_space == o.trailing_space)
            &&& forall|i: int|
                0 <= i < c.len() ==> (#[trigger] c[i] matches CommandView::CopyTranscript(t)
                    ==> t == finalized)
        }),
{
    let o = state.options;
    let leftover = leftover_text(finalized, state.acked_len);
    let tl = CommandView::TypeLeftover { text: leftover, trailing_space: o.trailing_space };
    let cp = CommandView::CopyTranscript(finalized);
    let c = state.stopped(finalized).1;
    let typed = leftover.len() > 0 || o.trailing_space;
    if typed {
        if o.auto_submit {
            if o.copy_clipboard {
                assert(c =~= seq![tl, CommandView::AutoSubmit, cp]);
            } else {
                assert(c =~= seq![tl, CommandView::AutoSubmit]);
            }
        } else {
            if o.copy_clipboard {
                assert(c =~= seq![tl, cp]);
            } else {
                assert(c =~= seq![tl]);
            }
        }
    } else {
        if o.auto_submit {
            if o.copy_clipboard {
                assert(c =~= seq![CommandView::AutoSubmit, cp]);
            } else {
                assert(c =~= seq![CommandView::AutoSubmit]);
            }
        } else {
            if o.copy_clipboard {
                assert(c =~= seq![cp]);
            } else {
                assert(c =~= Seq::<CommandView>::empty());
            }
        }
    }
    if o.auto_submit {
        let k: int = if typed { 1 } else { 0 };
        assert(c[k] is AutoSubmit);
    }
    if o.copy_clipboard {
        assert(c[c.len() - 1] is CopyTranscript);
    }
    if typed {
        assert(c[0] is TypeLeftover);
    }
}

/// Starting a Dictation Session keeps exactly what it was given: the request, whether
/// the model streams, and every option; nothing is accounted for and nothing is
/// cancelled yet.
pub proof fn law_start_keeps_its_arguments(
    live_requested: bool,
    model_streams: bool,
    options: LiveInsertionOptions,
)
    ensures
        LiveInsertionState::started(live_requested, model_streams, options).0.options == options,
        LiveInsertionState::started(live_requested, model_streams, options).0.live_requested
            == live_requested,
        LiveInsertionState::started(live_requested, model_streams, options).0.model_streams
            == model_streams,
        LiveInsertionState::started(live_requested, model_streams, options).0.acked_len == 0,
        !LiveInsertionState::started(live_requested, model_streams, options).0.cancelled,
        (LiveInsertionState::started(live_requested, model_streams, options).1.len() > 0) == (
        live_requested && !model_streams),
{
}

/// No Lookahead Override is read from an argv in which no argument is `--lookahead`
/// and none begins with `--lookahead=`; and one that is read is named right after
/// such an argument.
pub proof fn law_lookahead_only_from_its_flag(args: Seq<Seq<char>>)
    ensures
        (forall|i: int|
            0 <= i < args.len() ==> #[trigger] args[i] != "--lookahead"@
                && !"--lookahead="@.is_prefix_of(args[i])) ==> lookahead_in_argv(args) is None,
        lookahead_in_argv(args) matches Some(p) ==> exists|i: int|
            0 <= i < args.len() && ((#[trigger] args[i] == "--lookahead"@ && i + 1 < args.len()
                && lookahead_named(args[i + 1]) == Some(p)) || ("--lookahead="@.is_prefix_of(
                args[i],
            ) && lookahead_named(args[i].skip("--lookahead="@.len() as int)) == Some(p))),
    decreases args.len(),
{
    if args.len() > 0 {
        let tail = args.drop_first();
        law_lookahead_only_from_its_flag(tail);
        if forall|i: int|
            0 <= i < args.len() ==> #[trigger] args[i] != "--lookahead"@
                && !"--lookahead="@.is_prefix_of(args[i]) {
            assert(args[0] != "--lookahead"@);
            assert forall|i: int| 0 <= i < tail.len() implies #[trigger] tail[i] != "--lookahead"@
                && !"--lookahead="@.is_prefix_of(tail[i]) by {
                assert(tail[i] == args[i + 1]);
            }
        }
        if lookahead_in_argv(args) is Some {
            if args[0] == "--lookahead"@ || "--lookahead="@.is_prefix_of(args[0]) {
                assert(args[0] == args[0]);
            } else {
                let p = lookahead_in_argv(args)->0;
                let j = choose|j: int|
                    0 <= j < tail.len() && ((#[trigger] tail[j] == "--lookahead"@ && j + 1
                        < tail.len() && lookahead_named(tail[j + 1]) == Some(p)) || (
                    "--lookahead="@.is_prefix_of(tail[j]) && lookahead_named(
                        tail[j].skip("--lookahead="@.len() as int),
                    ) == Some(p)));
                assert(tail[j] == args[j + 1]);
                assert(j + 1 < tail.len() ==> tail[j + 1] == args[j + 2]);
            }
        }
    }
}

/// A preset is read only from its exact name.
pub proof fn law_preset_names(name: Seq<char>)
    ensures
        (lookahead_named(name) == Some(LiveInsertionLookahead::Fastest)) == (name == "fastest"@),
        (lookahead_named(name) == Some(LiveInsertionLookahead::Fast)) == (name == "fast"@),
        (lookahead_named(name) == Some(LiveInsertionLookahead::Balanced)) == (name
            == "balanced"@),
        (lookahead_named(name) == Some(LiveInsertionLookahead::Accurate)) == (name
            == "accurate"@),
{
    reveal_strlit("fastest");
    reveal_strlit("fast");
    reveal_strlit("balanced");
    reveal_strlit("accurate");
    assert("fastest"@.len() == 7 && "fast"@.len() == 4 && "balanced"@.len() == 8);
    assert("accurate"@.len() == 8 && "balanced"@[0] != "accurate"@[0]);
    assert("fastest"@ != "fast"@);
    assert("balanced"@ != "fast"@);
    assert("balanced"@ != "fastest"@);
    assert("accurate"@ != "fast"@);
    assert("accurate"@ != "fastest"@);
    assert("accurate"@ != "balanced"@);
}

/// The strict rules refuse exactly the combinations they name, and each refusal is
/// reported by the rule it breaks: `--lookahead` or `--live-insertion` without a
/// start flag, or `--quit` with another action; anything else passes.
pub proof fn law_strict_rules_refuse_exactly_their_cases(args: CliArgs)
    ensures
        ({
            let start = args.toggle_transcription || args.toggle_post_process;
            let other = start || args.cancel || args.transcribe_file is Some || args.list_devices
                || args.list_models || args.model is Some || args.device_index is Some
                || args.repeat is Some || args.json;
            &&& (args.strict_violation() is None) == ((args.lookahead is Some ==> start) && (
            args.live_insertion ==> start) && (args.quit ==> !other))
            &&& args.strict_violation() == Some(CliUsageError::LookaheadWithoutStart) ==> (
            args.lookahead is Some && !start)
            &&& args.strict_violation() == Some(CliUsageError::LiveInsertionWithoutStart) ==> (
            args.live_insertion && !start)
            &&& args.strict_violation() == Some(CliUsageError::QuitWithOtherActions) ==> (
            args.quit && other)
        }),
{
}

/// The Lookahead that Live Insertion asks for: the accuracy-first default whenever
/// Live Insertion is off, whatever the model accepts; otherwise right-context 3
/// (cache-aware) when the model accepts it, else an 80 ms chunk with 0 ms right
/// context when it accepts chunked options, else the default. A short Lookahead is
/// only ever asked of a family the model accepts.
pub proof fn law_lookahead_choice(active: bool, cache_aware: bool, chunked: bool)
    ensures
        !active ==> live_lookahead(active, cache_aware, chunked) == LiveLookahead::Default,
        active && cache_aware ==> live_lookahead(active, cache_aware, chunked)
            == (LiveLookahead::CacheAware { att_context_right: 3 }),
        active && !cache_aware && chunked ==> live_lookahead(active, cache_aware, chunked)
            == (LiveLookahead::ChunkedBuffered { chunk_ms: 80, right_ms: 0 }),
        !cache_aware && !chunked ==> live_lookahead(active, cache_aware, chunked)
            == LiveLookahead::Default,
        (live_lookahead(active, cache_aware, chunked) is CacheAware) ==> (active && cache_aware),
        (live_lookahead(active, cache_aware, chunked) is ChunkedBuffered) ==> (active
            && chunked),
{
}

/// Without Live Insertion inserting (not requested, a model that cannot stream, or a
/// cancelled session), snapshots and stops emit nothing and change nothing.
pub proof fn law_no_insertion_unless_inserting(
    state: LiveInsertionState,
    committed: Seq<char>,
    finalized: Seq<char>,
)
    requires
        !state.inserts_text(),
    ensures
        state.stream_text(committed) == (state, Seq::<CommandView>::empty()),
        state.stopped(finalized) == (state, Seq::<CommandView>::empty()),
{
}

/// A failed Direct increment is reported exactly once, as `ErrorContinue`, whenever
/// Live Insertion is active (cancelled or not), is not reported otherwise, and never
/// changes the state.
pub proof fn law_direct_failure_reported_once(state: LiveInsertionState)
    ensures
        state.direct_failure().0 == state,
        state.live_active() ==> state.direct_failure().1.len() == 1
            && state.direct_failure().1[0] is ErrorContinue,
        !state.live_active() ==> state.direct_failure().1.len() == 0,
{
}

} // verus!
