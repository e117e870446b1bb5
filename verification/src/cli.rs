//! Command-line options of Handy and the rules that hold between them.
//!
//! Reading argv into a [`CliArgs`] is the command-line parser's work; what this
//! module decides is which parsed combinations are usage errors, and how a running
//! instance reads the Live Insertion flags back out of an argv forwarded to it.
use crate::live_insertion::{lookahead_named, LiveInsertionLookahead};
use crate::text::{str_eq, strip_prefix};
use std::path::PathBuf;
use vstd::prelude::*;

verus! {

/// `std::path::PathBuf`, held as an opaque value so that a path can sit in
/// [`CliArgs`]; nothing is claimed about what a path holds, and the rules here only
/// look at whether one was given.
#[verifier::external_type_specification]
#[verifier::external_body]
pub struct ExPathBuf(PathBuf);

/// Handy - Speech to Text: the options of one invocation.
#[derive(Debug, Clone)]
pub struct CliArgs {
    /// Start with the main window hidden
    pub start_hidden: bool,
    /// Disable the system tray icon
    pub no_tray: bool,
    /// Toggle transcription on/off (sent to running instance)
    pub toggle_transcription: bool,
    /// Toggle transcription with post-processing on/off (sent to running instance)
    pub toggle_post_process: bool,
    /// Cancel the current operation (sent to running instance)
    pub cancel: bool,
    /// Lookahead Override for one Plain Dictation start (Live Insertion on only).
    /// Requires --toggle-transcription or --toggle-post-process.
    pub lookahead: Option<LiveInsertionLookahead>,
    /// Enable Live Insertion for one Plain Dictation start. Does not persist.
    /// Requires --toggle-transcription or --toggle-post-process.
    pub live_insertion: bool,
    /// Enable debug mode with verbose logging
    pub debug: bool,
    /// Transcribe this WAV (16 kHz mono) headlessly and exit.
    pub transcribe_file: Option<PathBuf>,
    /// Model id to load for --transcribe-file (default: the selected model).
    pub model: Option<String>,
    /// Hard-select the compute device for --transcribe-file by its registry index.
    pub device_index: Option<usize>,
    /// List the transcribe-cpp compute devices (with indices) and exit.
    pub list_devices: bool,
    /// List the available models (with ids) and exit.
    pub list_models: bool,
    /// Repeat the transcription N times (best_ms reports the fastest run).
    pub repeat: Option<usize>,
    /// Emit --transcribe-file results as JSON.
    pub json: bool,
    /// Quit the running Handy instance. Cannot be combined with other actions.
    pub quit: bool,
}

impl Default for CliArgs {
    /// No flag set and no value given.
    fn default() -> (args: Self)
        ensures
            !args.start_hidden && !args.no_tray && !args.toggle_transcription
                && !args.toggle_post_process && !args.cancel && !args.live_insertion
                && !args.debug && !args.list_devices && !args.list_models && !args.json
                && !args.quit,
            args.lookahead is None,
            args.transcribe_file is None,
            args.model is None,
            args.device_index is None,
            args.repeat is None,
    {
        CliArgs {
            start_hidden: false,
            no_tray: false,
            toggle_transcription: false,
            toggle_post_process: false,
            cancel: false,
            lookahead: None,
            live_insertion: false,
            debug: false,
            transcribe_file: None,
            model: None,
            device_index: None,
            list_devices: false,
            list_models: false,
            repeat: None,
            json: false,
            quit: false,
        }
    }
}

/// The class of a usage error, as the command-line parser reports it.
#[derive(Debug, Clone, Copy, PartialEq, Eq, Structural)]
pub enum CliErrorKind {
    MissingRequiredArgument,
    ArgumentConflict,
}

/// A combination of options that the strict rules refuse.
#[derive(Debug, Clone, Copy, PartialEq, Eq, Structural)]
pub enum CliUsageError {
    /// `--lookahead` without a start flag.
    LookaheadWithoutStart,
    /// `--live-insertion` without a start flag.
    LiveInsertionWithoutStart,
    /// `--quit` together with another action.
    QuitWithOtherActions,
}

impl CliUsageError {
    pub open spec fn spec_kind(self) -> CliErrorKind {
        match self {
            CliUsageError::QuitWithOtherActions => CliErrorKind::ArgumentConflict,
            _ => CliErrorKind::MissingRequiredArgument,
        }
    }

    /// The class of the error.
    pub fn kind(&self) -> (kind: CliErrorKind)
        ensures
            kind == self.spec_kind(),
    {
        match self {
            CliUsageError::QuitWithOtherActions => CliErrorKind::ArgumentConflict,
            _ => CliErrorKind::MissingRequiredArgument,
        }
    }

    /// The text shown to the user.
    pub fn message(&self) -> (text: &'static str)
        ensures
            *self == CliUsageError::LookaheadWithoutStart ==> text@
                == "--lookahead requires --toggle-transcription or --toggle-post-process"@,
            *self == CliUsageError::LiveInsertionWithoutStart ==> text@
                == "--live-insertion requires --toggle-transcription or --toggle-post-process"@,
            *self == CliUsageError::QuitWithOtherActions ==> text@
                == "--quit cannot be combined with other actions"@,
    {
        match self {
            CliUsageError::LookaheadWithoutStart => {
                "--lookahead requires --toggle-transcription or --toggle-post-process"
            },
            CliUsageError::LiveInsertionWithoutStart => {
                "--live-insertion requires --toggle-transcription or --toggle-post-process"
            },
            CliUsageError::QuitWithOtherActions => "--quit cannot be combined with other actions",
        }
    }
}

impl CliArgs {
    /// The invocation starts (or stops) a Dictation Session.
    pub open spec fn has_start(self) -> bool {
        self.toggle_transcription || self.toggle_post_process
    }

    /// The invocation asks for something besides quitting.
    pub open spec fn has_other_action(self) -> bool {
        ||| self.has_start()
        ||| self.cancel
        ||| self.transcribe_file is Some
        ||| self.list_devices
        ||| self.list_models
        ||| self.model is Some
        ||| self.device_index is Some
        ||| self.repeat is Some
        ||| self.json
    }

    /// The first strict rule that the options break, if any.
    pub open spec fn strict_violation(self) -> Option<CliUsageError> {
        if self.lookahead is Some && !self.has_start() {
            Some(CliUsageError::LookaheadWithoutStart)
        } else if self.live_insertion && !self.has_start() {
            Some(CliUsageError::LiveInsertionWithoutStart)
        } else if self.quit && self.has_other_action() {
            Some(CliUsageError::QuitWithOtherActions)
        } else {
            None
        }
    }

    /// Applies the strict rules to parsed options: `--lookahead` and
    /// `--live-insertion` need a start flag, and `--quit` stands alone.
    pub fn check_strict(self) -> (res: Result<Self, CliUsageError>)
        ensures
            match res {
                Ok(args) => self.strict_violation() is None && args == self,
                Err(e) => self.strict_violation() == Some(e),
            },
    {
        let has_start = self.toggle_transcription || self.toggle_post_process;
        if self.lookahead.is_some() && !has_start {
            return Err(CliUsageError::LookaheadWithoutStart);
        }
        if self.live_insertion && !has_start {
            return Err(CliUsageError::LiveInsertionWithoutStart);
        }
        if self.quit && (has_start || self.cancel || self.transcribe_file.is_some()
            || self.list_devices || self.list_models || self.model.is_some()
            || self.device_index.is_some() || self.repeat.is_some() || self.json) {
            return Err(CliUsageError::QuitWithOtherActions);
        }
        Ok(self)
    }
}

/// The arguments of an argv, each as its characters.
pub open spec fn argv_view(args: Seq<&str>) -> Seq<Seq<char>> {
    args.map_values(|a: &str| a@)
}

/// The Lookahead Override named by the first `--lookahead=NAME`, or by the argument
/// after the first `--lookahead`, whichever comes first; `None` when there is none
/// or the name is not a preset.
pub open spec fn lookahead_in_argv(args: Seq<Seq<char>>) -> Option<LiveInsertionLookahead>
    decreases args.len(),
{
    if args.len() == 0 {
        None
    } else if "--lookahead="@.is_prefix_of(args[0]) {
        lookahead_named(args[0].skip("--lookahead="@.len() as int))
    } else if args[0] == "--lookahead"@ {
        if args.len() > 1 {
            lookahead_named(args[1])
        } else {
            None
        }
    } else {
        lookahead_in_argv(args.drop_first())
    }
}

/// Read `--lookahead` from forwarded single-instance argv (already validated
/// in the sending process).
pub fn lookahead_from_argv(args: &[&str]) -> (lookahead: Option<LiveInsertionLookahead>)
    ensures
        lookahead == lookahead_in_argv(argv_view(args@)),
{
    let ghost argv = argv_view(args@);
    let mut i: usize = 0;
    assert(argv.skip(0) =~= argv);
    while i < args.len()
        invariant
            argv == argv_view(args@),
            i <= args.len(),
            lookahead_in_argv(argv) == lookahead_in_argv(argv.skip(i as int)),
        decreases args.len() - i,
    {
        let a = args[i];
        let ghost rest = argv.skip(i as int);
        assert(rest[0] == a@);
        if let Some(name) = strip_prefix(a, "--lookahead=") {
            return LiveInsertionLookahead::from_name(name);
        }
        if str_eq(a, "--lookahead") {
            if i + 1 < args.len() {
                assert(rest[1] == args@[i + 1]@);
                return LiveInsertionLookahead::from_name(args[i + 1]);
            }
            return None;
        }
        assert(rest.drop_first() =~= argv.skip(i + 1));
        i = i + 1;
    }
    assert(argv.skip(i as int) =~= Seq::<Seq<char>>::empty());
    None
}

/// Read `--live-insertion` from forwarded single-instance argv (already validated
/// in the sending process).
pub fn live_insertion_from_argv(args: &[&str]) -> (present: bool)
    ensures
        present == exists|i: int| 0 <= i < args@.len() && args@[i]@ == "--live-insertion"@,
{
    let mut i: usize = 0;
    while i < args.len()
        invariant
            i <= args.len(),
            forall|j: int| 0 <= j < i ==> args@[j]@ != "--live-insertion"@,
        decreases args.len() - i,
    {
        if str_eq(args[i], "--live-insertion") {
            return true;
        }
        i = i + 1;
    }
    false
}

} // verus!
