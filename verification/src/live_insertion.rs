//! Live Insertion policy: Committed Deltas, leftover on stop, nothing on Cancel.
//!
//! Pure decision logic. No microphone, STT, overlay, or OS typing.
//!
//! The policy is a state machine. [`LiveInsertionState`] is its abstract state, and
//! the spec methods of that type are its transitions; each executable method of
//! [`LiveInsertionPolicy`] is proved to take exactly the matching transition.
use crate::text::{byte_len, bytes_after, lemma_encode_empty, on_char_boundary, str_eq};
use vstd::prelude::*;

verus! {

broadcast use {vstd::utf8::encode_utf8_valid_utf8, vstd::utf8::encode_utf8_decode_utf8};

/// Session options that affect stop leftover only, not mid-session Committed Deltas.
#[derive(Debug, Clone, Copy, PartialEq, Eq, Structural)]
pub struct LiveInsertionOptions {
    pub trailing_space: bool,
    pub auto_submit: bool,
    pub copy_clipboard: bool,
}

impl Default for LiveInsertionOptions {
    /// All extras off.
    fn default() -> (options: Self)
        ensures
            !options.trailing_space,
            !options.auto_submit,
            !options.copy_clipboard,
    {
        LiveInsertionOptions { trailing_space: false, auto_submit: false, copy_clipboard: false }
    }
}

/// Commands the policy emits for a Dictation Session. Callers apply them.
#[derive(Debug, Clone, PartialEq, Eq)]
pub enum LiveInsertionCommand {
    /// Direct-type a Committed Delta during the Dictation Session.
    Type(String),
    /// Direct-type leftover text on a normal stop (finalized Tentative Transcript).
    TypeLeftover { text: String, trailing_space: bool },
    AutoSubmit,
    CopyTranscript(String),
    /// A Direct increment failed; keep the Dictation Session going.
    ErrorContinue,
    /// Live Insertion was requested but the model cannot stream: no live types.
    Inactive,
}

/// A command with its text seen as a sequence of characters.
pub enum CommandView {
    Type(Seq<char>),
    TypeLeftover { text: Seq<char>, trailing_space: bool },
    AutoSubmit,
    CopyTranscript(Seq<char>),
    ErrorContinue,
    Inactive,
}

impl View for LiveInsertionCommand {
    type V = CommandView;

    open spec fn view(&self) -> CommandView {
        match self {
            LiveInsertionCommand::Type(text) => CommandView::Type(text@),
            LiveInsertionCommand::TypeLeftover { text, trailing_space } => CommandView::TypeLeftover {
                text: text@,
                trailing_space: *trailing_space,
            },
            LiveInsertionCommand::AutoSubmit => CommandView::AutoSubmit,
            LiveInsertionCommand::CopyTranscript(text) => CommandView::CopyTranscript(text@),
            LiveInsertionCommand::ErrorContinue => CommandView::ErrorContinue,
            LiveInsertionCommand::Inactive => CommandView::Inactive,
        }
    }
}

/// The commands of a list, each seen through its view.
pub open spec fn commands_view(commands: Seq<LiveInsertionCommand>) -> Seq<CommandView> {
    commands.map_values(|c: LiveInsertionCommand| c@)
}

/// The text that the commands direct-type into the Target Application, in order.
pub open spec fn typed_text(commands: Seq<CommandView>) -> Seq<char>
    decreases commands.len(),
{
    if commands.len() == 0 {
        Seq::empty()
    } else {
        typed_text(commands.drop_last()) + command_text(commands.last())
    }
}

/// The text a single command direct-types: none unless it is a typing command.
pub open spec fn command_text(command: CommandView) -> Seq<char> {
    match command {
        CommandView::Type(text) => text,
        CommandView::TypeLeftover { text, .. } => text,
        _ => Seq::empty(),
    }
}

/// Abstract state of a [`LiveInsertionPolicy`].
pub struct LiveInsertionState {
    pub live_requested: bool,
    pub model_streams: bool,
    pub options: LiveInsertionOptions,
    /// The Dictation Session was cancelled: Live Insertion is over for it.
    pub cancelled: bool,
    /// Byte length of Committed Transcript already accounted for (typed or dropped).
    pub acked_len: nat,
}

/// Leftover of a normal stop: the finalized text after the bytes already accounted
/// for, or nothing when those bytes cover it or end inside a character.
pub open spec fn leftover_text(finalized: Seq<char>, acked_len: nat) -> Seq<char> {
    if acked_len >= byte_len(finalized) || !on_char_boundary(finalized, acked_len) {
        Seq::empty()
    } else {
        bytes_after(finalized, acked_len)
    }
}

impl LiveInsertionState {
    /// Live Insertion was requested and the model can stream. No call changes this.
    pub open spec fn live_active(self) -> bool {
        self.live_requested && self.model_streams
    }

    /// Text may still be inserted: Live Insertion is active and the Dictation Session
    /// has not been cancelled.
    pub open spec fn inserts_text(self) -> bool {
        self.live_active() && !self.cancelled
    }

    /// The state with `acked_len` replaced.
    pub open spec fn with_acked(self, acked_len: nat) -> LiveInsertionState {
        LiveInsertionState { acked_len, ..self }
    }

    /// Start of a Dictation Session.
    pub open spec fn started(
        live_requested: bool,
        model_streams: bool,
        options: LiveInsertionOptions,
    ) -> (LiveInsertionState, Seq<CommandView>) {
        (
            LiveInsertionState {
                live_requested,
                model_streams,
                options,
                cancelled: false,
                acked_len: 0,
            },
            if live_requested && !model_streams {
                seq![CommandView::Inactive]
            } else {
                Seq::empty()
            },
        )
    }

    /// A snapshot of Committed Transcript arrives: type only its growth past `acked_len`.
    pub open spec fn stream_text(self, committed: Seq<char>) -> (
        LiveInsertionState,
        Seq<CommandView>,
    ) {
        if !self.inserts_text() || byte_len(committed) <= self.acked_len || !on_char_boundary(
            committed,
            self.acked_len,
        ) {
            (self, Seq::empty())
        } else {
            (
                self.with_acked(byte_len(committed)),
                seq![CommandView::Type(bytes_after(committed, self.acked_len))],
            )
        }
    }

    /// Normal stop: type the untyped leftover, then the end-of-session extras.
    pub open spec fn stopped(self, finalized: Seq<char>) -> (LiveInsertionState, Seq<CommandView>) {
        if !self.inserts_text() {
            (self, Seq::empty())
        } else {
            let leftover = leftover_text(finalized, self.acked_len);
            let typed = if leftover.len() > 0 || self.options.trailing_space {
                seq![
                    CommandView::TypeLeftover {
                        text: leftover,
                        trailing_space: self.options.trailing_space,
                    },
                ]
            } else {
                Seq::empty()
            };
            let submit = if self.options.auto_submit {
                seq![CommandView::AutoSubmit]
            } else {
                Seq::empty()
            };
            let copy = if self.options.copy_clipboard {
                seq![CommandView::CopyTranscript(finalized)]
            } else {
                Seq::empty()
            };
            (self.with_acked(byte_len(finalized)), typed + submit + copy)
        }
    }

    /// Cancel: nothing is typed now or later in the Dictation Session; text already
    /// typed stays where it is, and nothing more counts as accounted for. Whether
    /// Live Insertion is active does not change.
    pub open spec fn after_cancel(self) -> (LiveInsertionState, Seq<CommandView>) {
        (LiveInsertionState { cancelled: true, acked_len: 0, ..self }, Seq::empty())
    }

    /// A Direct increment failed: report it and keep going, without retrying.
    pub open spec fn direct_failure(self) -> (LiveInsertionState, Seq<CommandView>) {
        (self, if self.live_active() {
            seq![CommandView::ErrorContinue]
        } else {
            Seq::empty()
        })
    }
}

/// Tracks how much Committed Transcript has already been sent (typed or dropped).
pub struct LiveInsertionPolicy {
    live_requested: bool,
    model_streams: bool,
    options: LiveInsertionOptions,
    /// Set by Cancel: no further text is inserted in this Dictation Session.
    cancelled: bool,
    /// Byte length of Committed Transcript already accounted for.
    acked_len: usize,
}

impl View for LiveInsertionPolicy {
    type V = LiveInsertionState;

    closed spec fn view(&self) -> LiveInsertionState {
        LiveInsertionState {
            live_requested: self.live_requested,
            model_streams: self.model_streams,
            options: self.options,
            cancelled: self.cancelled,
            acked_len: self.acked_len as nat,
        }
    }
}

impl LiveInsertionPolicy {
    /// Begins a Dictation Session; reports `Inactive` when Live Insertion was requested
    /// but the model cannot stream.
    pub fn start(live_requested: bool, model_streams: bool, options: LiveInsertionOptions) -> (res: (
        Self,
        Vec<LiveInsertionCommand>,
    ))
        ensures
            (res.0@, commands_view(res.1@)) == LiveInsertionState::started(
                live_requested,
                model_streams,
                options,
            ),
    {
        let policy = Self { live_requested, model_streams, options, cancelled: false, acked_len: 0 };
        let commands = if live_requested && !model_streams {
            vec![LiveInsertionCommand::Inactive]
        } else {
            Vec::new()
        };
        proof {
            assert(commands_view(commands@) =~= LiveInsertionState::started(
                live_requested,
                model_streams,
                options,
            ).1);
        }
        (policy, commands)
    }

    /// Live Insertion is requested and the loaded model can stream.
    pub fn live_active(&self) -> (active: bool)
        ensures
            active == self@.live_active(),
    {
        self.live_requested && self.model_streams
    }

    /// Process a StreamTextEvent snapshot. Types only new Committed Delta growth.
    /// Tentative Transcript never reaches the Target Application.
    pub fn on_stream_text(&mut self, committed: &str, _tentative: &str) -> (commands: Vec<
        LiveInsertionCommand,
    >)
        ensures
            (final(self)@, commands_view(commands@)) == old(self)@.stream_text(committed@),
    {
        if !self.live_active() || self.cancelled {
            return Vec::new();
        }
        let committed_len = committed.as_bytes().len();
        if committed_len <= self.acked_len {
            return Vec::new();
        }
        if !committed.is_char_boundary(self.acked_len) {
            return Vec::new();
        }
        let (_, rest) = committed.split_at(self.acked_len);
        proof {
            assert(rest@ == bytes_after(committed@, self.acked_len as nat));
            lemma_encode_empty(rest@);
        }
        if rest.is_empty() {
            return Vec::new();
        }
        let delta = rest.to_owned();
        self.acked_len = committed_len;
        let commands = vec![LiveInsertionCommand::Type(delta)];
        proof {
            assert(commands_view(commands@) =~= old(self)@.stream_text(committed@).1);
        }
        commands
    }

    /// Normal stop: leftover is untyped finalized text; extras only here, not on deltas.
    pub fn stop(&mut self, finalized_text: &str) -> (commands: Vec<LiveInsertionCommand>)
        ensures
            (final(self)@, commands_view(commands@)) == old(self)@.stopped(finalized_text@),
    {
        if !self.live_active() || self.cancelled {
            return Vec::new();
        }
        let ghost start = self@;
        let mut commands: Vec<LiveInsertionCommand> = Vec::new();
        let leftover = leftover_after_acked(finalized_text, self.acked_len);
        let trailing_space = self.options.trailing_space;
        if !leftover.as_str().is_empty() || trailing_space {
            commands.push(LiveInsertionCommand::TypeLeftover { text: leftover, trailing_space });
        }
        let ghost typed = commands_view(commands@);
        self.acked_len = finalized_text.as_bytes().len();
        if self.options.auto_submit {
            commands.push(LiveInsertionCommand::AutoSubmit);
        }
        if self.options.copy_clipboard {
            commands.push(LiveInsertionCommand::CopyTranscript(finalized_text.to_owned()));
        }
        proof {
            let spec = start.stopped(finalized_text@);
            assert(typed =~= spec.1.subrange(0, typed.len() as int));
            assert(commands_view(commands@) =~= spec.1);
        }
        commands
    }

    /// Cancel: do not finalize leftover Tentative Transcript, and insert nothing
    /// further in this Dictation Session.
    pub fn cancel(&mut self) -> (commands: Vec<LiveInsertionCommand>)
        ensures
            (final(self)@, commands_view(commands@)) == old(self)@.after_cancel(),
    {
        self.cancelled = true;
        self.acked_len = 0;
        let commands = Vec::new();
        proof {
            assert(commands_view(commands@) =~= Seq::<CommandView>::empty());
        }
        commands
    }

    /// Drop a failed Direct increment; do not retry that Committed Delta.
    pub fn direct_failed(&mut self) -> (commands: Vec<LiveInsertionCommand>)
        ensures
            (final(self)@, commands_view(commands@)) == old(self)@.direct_failure(),
    {
        if !self.live_active() {
            return Vec::new();
        }
        let commands = vec![LiveInsertionCommand::ErrorContinue];
        proof {
            assert(commands_view(commands@) =~= old(self)@.direct_failure().1);
        }
        commands
    }
}

fn leftover_after_acked(finalized_text: &str, acked_len: usize) -> (leftover: String)
    ensures
        leftover@ == leftover_text(finalized_text@, acked_len as nat),
{
    if acked_len >= finalized_text.as_bytes().len() || !finalized_text.is_char_boundary(acked_len) {
        String::new()
    } else {
        let (_, rest) = finalized_text.split_at(acked_len);
        rest.to_owned()
    }
}

/// The Lookahead presets a user can pick for Live Insertion (Settings or `--lookahead`).
#[derive(Debug, Clone, Copy, PartialEq, Eq, Structural)]
pub enum LiveInsertionLookahead {
    Fastest,
    Fast,
    Balanced,
    Accurate,
}

/// The preset whose name is exactly `name`, if any.
pub open spec fn lookahead_named(name: Seq<char>) -> Option<LiveInsertionLookahead> {
    if name == "fastest"@ {
        Some(LiveInsertionLookahead::Fastest)
    } else if name == "fast"@ {
        Some(LiveInsertionLookahead::Fast)
    } else if name == "balanced"@ {
        Some(LiveInsertionLookahead::Balanced)
    } else if name == "accurate"@ {
        Some(LiveInsertionLookahead::Accurate)
    } else {
        None
    }
}

impl LiveInsertionLookahead {
    /// The preset named `name` (`fastest`, `fast`, `balanced` or `accurate`, matched
    /// exactly), or `None` for any other text.
    pub fn from_name(name: &str) -> (preset: Option<Self>)
        ensures
            preset == lookahead_named(name@),
    {
        if str_eq(name, "fastest") {
            Some(LiveInsertionLookahead::Fastest)
        } else if str_eq(name, "fast") {
            Some(LiveInsertionLookahead::Fast)
        } else if str_eq(name, "balanced") {
            Some(LiveInsertionLookahead::Balanced)
        } else if str_eq(name, "accurate") {
            Some(LiveInsertionLookahead::Accurate)
        } else {
            None
        }
    }
}

/// Lookahead the stream worker should request. `Default` is the model's
/// accuracy-first StreamOptions (no family extension).
#[derive(Debug, Clone, PartialEq, Eq, Structural)]
pub enum LiveLookahead {
    Default,
    /// Cache-aware (Nemotron): `att_context_right` in encoder frames.
    CacheAware { att_context_right: i32 },
    /// Chunked Unified: milliseconds; left stays the model default (large).
    ChunkedBuffered { chunk_ms: i32, right_ms: i32 },
}

/// Shortest non-zero Lookahead on Nemotron Streaming 3.5 GGUF's training menu
/// (`13 6 3 0`). ~240 ms (3 × 80 ms encoder frames). Not 1 (not on this menu)
/// and not 0 (worse WER).
pub const NEMOTRON_LIVE_ATT_CONTEXT_RIGHT: i32 = 3;

/// Smallest on-menu Unified chunk (80 ms encoder frames).
/// parakeet-unified-en menu: L∈{70}, C∈{1,2,7,13}, R∈{0,1,2,3,4,7,13}.
pub const UNIFIED_LIVE_CHUNK_MS: i32 = 80;

/// Smallest on-menu Unified right context.
pub const UNIFIED_LIVE_RIGHT_MS: i32 = 0;

/// The Lookahead that [`lookahead_for_live_insertion`] picks.
pub open spec fn live_lookahead(
    live_insertion_active: bool,
    model_accepts_cache_aware: bool,
    model_accepts_chunked: bool,
) -> LiveLookahead {
    if !live_insertion_active {
        LiveLookahead::Default
    } else if model_accepts_cache_aware {
        LiveLookahead::CacheAware { att_context_right: NEMOTRON_LIVE_ATT_CONTEXT_RIGHT }
    } else if model_accepts_chunked {
        LiveLookahead::ChunkedBuffered {
            chunk_ms: UNIFIED_LIVE_CHUNK_MS,
            right_ms: UNIFIED_LIVE_RIGHT_MS,
        }
    } else {
        LiveLookahead::Default
    }
}

/// When Live Insertion is active, pick a short Lookahead for the loaded family.
pub fn lookahead_for_live_insertion(
    live_insertion_active: bool,
    model_accepts_cache_aware: bool,
    model_accepts_chunked: bool,
) -> (lookahead: LiveLookahead)
    ensures
        lookahead == live_lookahead(
            live_insertion_active,
            model_accepts_cache_aware,
            model_accepts_chunked,
        ),
{
    if !live_insertion_active {
        return LiveLookahead::Default;
    }
    if model_accepts_cache_aware {
        return LiveLookahead::CacheAware { att_context_right: NEMOTRON_LIVE_ATT_CONTEXT_RIGHT };
    }
    if model_accepts_chunked {
        return LiveLookahead::ChunkedBuffered {
            chunk_ms: UNIFIED_LIVE_CHUNK_MS,
            right_ms: UNIFIED_LIVE_RIGHT_MS,
        };
    }
    LiveLookahead::Default
}

/// Silence Feeding: noise frames go to the stream only while Live Insertion is active.
pub fn should_feed_silence_to_stream(live_insertion_active: bool) -> (feed: bool)
    ensures
        feed == live_insertion_active,
{
    live_insertion_active
}

} // verus!
