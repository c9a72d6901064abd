//! The cache and replay engine: one run of the tool as a state machine.
//!
//! The engine does no input or output itself. It answers each [`Event`] with
//! the next [`Action`]; whoever drives it carries the action out and reports
//! what came of it as the next event. A run starts with [`Session::start`]
//! and is over with [`Action::Exit`] or [`Action::Fail`].
//!
//! A run looks the script's fingerprint up in the store. On a miss the script
//! is staged, compiled, and the outcome recorded under the fingerprint: the
//! artifact of a successful build, the diagnostics of a failed one. On a hit
//! nothing is compiled: the recorded artifact is run, or the recorded
//! diagnostics and exit code are given again.

use crate::fingerprint::{fingerprint, get_key};
use crate::status::{
    build_exit_code, build_exit_code_of, exit_code_of, run_exit_code, Termination, RUN_SENTINEL,
};
use crate::workspace::{stage, staged, Files, StageError, Workspace};
use vstd::prelude::*;

verus! {

/// `std::string::FromUtf8Error`: why bytes were not accepted as text.
#[verifier::external_type_specification]
#[verifier::external_body]
pub struct ExFromUtf8Error(std::string::FromUtf8Error);

/// Calls `String::from_utf8`.
///
/// Trusted: the bytes are accepted exactly when they are valid UTF-8, and
/// the string that comes back is the text they encode.
#[verifier::external_body]
fn text_of(bytes: Vec<u8>) -> (r: Result<String, std::string::FromUtf8Error>)
    ensures
        match r {
            Ok(text) => vstd::utf8::valid_utf8(bytes@) && text@ == vstd::utf8::decode_utf8(bytes@),
            Err(_) => !vstd::utf8::valid_utf8(bytes@),
        },
{
    String::from_utf8(bytes)
}

/// What the store records under a fingerprint, beside the artifact.
#[derive(Clone, Debug, PartialEq, Eq)]
pub struct CacheEntry {
    /// Content hash under which the store holds the build's output.
    pub output_id: String,
    /// Exit code of the build.
    pub exit_code: i32,
}

/// The model of a [`CacheEntry`].
pub struct EntryView {
    /// Content hash under which the store holds the build's output.
    pub output_id: Seq<char>,
    /// Exit code of the build.
    pub exit_code: i32,
}

impl View for CacheEntry {
    type V = EntryView;

    open spec fn view(&self) -> EntryView {
        EntryView { output_id: self.output_id@, exit_code: self.exit_code }
    }
}

/// Which artifact to run.
#[derive(Clone, Copy, Debug, PartialEq, Eq, Structural)]
pub enum Artifact {
    /// The one the compiler has just left in the workspace.
    Built,
    /// The one copied out of the store.
    Cached,
}

/// Why a run ends without an exit code of the script's own.
#[derive(Clone, Copy, Debug, PartialEq, Eq, Structural)]
pub enum EngineError {
    /// The input is not valid UTF-8.
    NotText,
    /// The script cannot be built as it stands.
    Stage(StageError),
    /// The compiler reported success and left no artifact.
    ArtifactMissing,
    /// An event was reported that does not answer the last action.
    OutOfTurn,
}

/// What the driver reports back to the engine.
#[derive(Clone, Debug, PartialEq, Eq)]
pub enum Event {
    /// The store holds this entry under the fingerprint.
    Found(CacheEntry),
    /// The store holds nothing under the fingerprint.
    Missing,
    /// The workspace is written.
    Staged,
    /// The compiler has ended. `output` is all it wrote to its two output
    /// streams, in the order written; `status` is how it ended, if known.
    Built { output: Vec<u8>, status: Option<Termination> },
    /// The store holds the build's output under this content hash.
    LogStored { output_id: String },
    /// The store holds the new entry.
    Committed,
    /// There is no artifact where the compiler should have left one.
    ArtifactMissing,
    /// The recorded artifact is copied out and executable.
    Materialized,
    /// The recorded build output, as the store holds it.
    Log(Vec<u8>),
    /// The artifact has ended.
    Ran(Termination),
}

/// The model of an [`Event`].
pub enum EventView {
    Found(EntryView),
    Missing,
    Staged,
    Built { output: Seq<u8>, status: Option<Termination> },
    LogStored { output_id: Seq<char> },
    Committed,
    ArtifactMissing,
    Materialized,
    Log(Seq<u8>),
    Ran(Termination),
}

impl View for Event {
    type V = EventView;

    open spec fn view(&self) -> EventView {
        match *self {
            Event::Found(entry) => EventView::Found(entry@),
            Event::Missing => EventView::Missing,
            Event::Staged => EventView::Staged,
            Event::Built { output, status } => EventView::Built { output: output@, status },
            Event::LogStored { output_id } => EventView::LogStored { output_id: output_id@ },
            Event::Committed => EventView::Committed,
            Event::ArtifactMissing => EventView::ArtifactMissing,
            Event::Materialized => EventView::Materialized,
            Event::Log(bytes) => EventView::Log(bytes@),
            Event::Ran(status) => EventView::Ran(status),
        }
    }
}

/// What the engine asks the driver to do.
#[derive(Clone, Debug, PartialEq, Eq)]
pub enum Action {
    /// Look `key` up in the store. Answer: `Found` or `Missing`.
    Lookup { key: String },
    /// Write these files into a fresh workspace. Answer: `Staged`.
    Stage { workspace: Workspace },
    /// Run the compiler in the workspace, capture all it writes, and pass
    /// the output on to the user as it comes if `forward` is set. Answer:
    /// `Built`.
    Build { forward: bool },
    /// Store `log` under its content hash. Answer: `LogStored`.
    StoreLog { log: Vec<u8> },
    /// Record `entry` under `key`, with the artifact from the workspace as
    /// data if `with_artifact` is set, and with no data otherwise. Answer:
    /// `Committed`, or `ArtifactMissing` where the artifact is asked for and
    /// is not there.
    Commit { key: String, entry: CacheEntry, with_artifact: bool },
    /// Copy the data recorded under `key` to an executable file. Answer:
    /// `Materialized`.
    Materialize { key: String },
    /// Run the artifact with these arguments and wait for it. Answer: `Ran`.
    Run { artifact: Artifact, arguments: Vec<String> },
    /// Read the data stored under this content hash. Answer: `Log`.
    FetchLog { output_id: String },
    /// Write `diagnostics` to the error stream and end with `code`.
    Exit { diagnostics: Vec<u8>, code: i32 },
    /// Give up.
    Fail(EngineError),
}

/// The model of an [`Action`].
pub enum ActionView {
    Lookup { key: Seq<char> },
    Stage { workspace: Files },
    Build { forward: bool },
    StoreLog { log: Seq<u8> },
    Commit { key: Seq<char>, entry: EntryView, with_artifact: bool },
    Materialize { key: Seq<char> },
    Run { artifact: Artifact, arguments: Seq<Seq<char>> },
    FetchLog { output_id: Seq<char> },
    Exit { diagnostics: Seq<u8>, code: i32 },
    Fail(EngineError),
}

impl View for Action {
    type V = ActionView;

    open spec fn view(&self) -> ActionView {
        match *self {
            Action::Lookup { key } => ActionView::Lookup { key: key@ },
            Action::Stage { workspace } => ActionView::Stage { workspace: workspace@ },
            Action::Build { forward } => ActionView::Build { forward },
            Action::StoreLog { log } => ActionView::StoreLog { log: log@ },
            Action::Commit { key, entry, with_artifact } => ActionView::Commit {
                key: key@,
                entry: entry@,
                with_artifact,
            },
            Action::Materialize { key } => ActionView::Materialize { key: key@ },
            Action::Run { artifact, arguments } => ActionView::Run {
                artifact,
                arguments: arguments.deep_view(),
            },
            Action::FetchLog { output_id } => ActionView::FetchLog { output_id: output_id@ },
            Action::Exit { diagnostics, code } => ActionView::Exit {
                diagnostics: diagnostics@,
                code,
            },
            Action::Fail(e) => ActionView::Fail(e),
        }
    }
}

/// Where a run stands: which answer the engine waits for, and what it has to
/// remember until then.
#[derive(Debug)]
pub enum Session {
    /// Waiting for the store's answer to the lookup.
    Looking { text: String, key: String, arguments: Vec<String>, forward: bool },
    /// Waiting for the workspace to be written.
    Staging { key: String, arguments: Vec<String>, forward: bool },
    /// Waiting for the compiler.
    Building { key: String, arguments: Vec<String> },
    /// Waiting for the store to take the build's output.
    StoringLog { key: String, arguments: Vec<String>, log: Vec<u8>, exit_code: i32 },
    /// Waiting for the store to take the entry.
    Committing { arguments: Vec<String>, log: Vec<u8>, exit_code: i32 },
    /// Waiting for the recorded artifact to be copied out.
    Materializing { arguments: Vec<String> },
    /// Waiting for the recorded build output.
    FetchingLog { exit_code: i32 },
    /// Waiting for the artifact to end.
    Running,
    /// The run is over.
    Done,
}

/// The model of a [`Session`].
pub enum SessionView {
    Looking { text: Seq<char>, key: Seq<char>, arguments: Seq<Seq<char>>, forward: bool },
    Staging { key: Seq<char>, arguments: Seq<Seq<char>>, forward: bool },
    Building { key: Seq<char>, arguments: Seq<Seq<char>> },
    StoringLog { key: Seq<char>, arguments: Seq<Seq<char>>, log: Seq<u8>, exit_code: i32 },
    Committing { arguments: Seq<Seq<char>>, log: Seq<u8>, exit_code: i32 },
    Materializing { arguments: Seq<Seq<char>> },
    FetchingLog { exit_code: i32 },
    Running,
    Done,
}

impl View for Session {
    type V = SessionView;

    open spec fn view(&self) -> SessionView {
        match *self {
            Session::Looking { text, key, arguments, forward } => SessionView::Looking {
                text: text@,
                key: key@,
                arguments: arguments.deep_view(),
                forward,
            },
            Session::Staging { key, arguments, forward } => SessionView::Staging {
                key: key@,
                arguments: arguments.deep_view(),
                forward,
            },
            Session::Building { key, arguments } => SessionView::Building {
                key: key@,
                arguments: arguments.deep_view(),
            },
            Session::StoringLog { key, arguments, log, exit_code } => SessionView::StoringLog {
                key: key@,
                arguments: arguments.deep_view(),
                log: log@,
                exit_code,
            },
            Session::Committing { arguments, log, exit_code } => SessionView::Committing {
                arguments: arguments.deep_view(),
                log: log@,
                exit_code,
            },
            Session::Materializing { arguments } => SessionView::Materializing {
                arguments: arguments.deep_view(),
            },
            Session::FetchingLog { exit_code } => SessionView::FetchingLog { exit_code },
            Session::Running => SessionView::Running,
            Session::Done => SessionView::Done,
        }
    }
}

/// How a run begins: with a lookup of the fingerprint of the raw input, or,
/// where the input is not text, with a failure.
pub open spec fn start_of(input: Seq<u8>, arguments: Seq<Seq<char>>, verbosity: usize) -> (
    SessionView,
    ActionView,
) {
    if vstd::utf8::valid_utf8(input) {
        (
            SessionView::Looking {
                text: vstd::utf8::decode_utf8(input),
                key: fingerprint(input),
                arguments,
                forward: verbosity >= 1,
            },
            ActionView::Lookup { key: fingerprint(input) },
        )
    } else {
        (SessionView::Done, ActionView::Fail(EngineError::NotText))
    }
}

/// The end of a run that went wrong.
pub open spec fn failed(e: EngineError) -> (SessionView, ActionView) {
    (SessionView::Done, ActionView::Fail(e))
}

/// The answer to what the store said of the fingerprint.
///
/// An entry of a successful build has its artifact copied out. An entry of
/// a failed build has its output fetched. Without an entry the script is
/// staged, or the run fails where the script cannot be.
pub open spec fn after_lookup(
    text: Seq<char>,
    key: Seq<char>,
    arguments: Seq<Seq<char>>,
    forward: bool,
    found: Option<EntryView>,
) -> (SessionView, ActionView) {
    match found {
        Some(entry) => {
            if entry.exit_code == 0 {
                (SessionView::Materializing { arguments }, ActionView::Materialize { key })
            } else {
                (
                    SessionView::FetchingLog { exit_code: entry.exit_code },
                    ActionView::FetchLog { output_id: entry.output_id },
                )
            }
        },
        None => match staged(text) {
            Ok(workspace) => (
                SessionView::Staging { key, arguments, forward },
                ActionView::Stage { workspace },
            ),
            Err(e) => failed(EngineError::Stage(e)),
        },
    }
}

/// The answer to a recorded entry: the artifact of a successful build is
/// run, the output of a failed one is given to the user with its exit code.
pub open spec fn after_commit(arguments: Seq<Seq<char>>, log: Seq<u8>, exit_code: i32) -> (
    SessionView,
    ActionView,
) {
    if exit_code == 0 {
        (SessionView::Running, ActionView::Run { artifact: Artifact::Built, arguments })
    } else {
        (SessionView::Done, ActionView::Exit { diagnostics: log, code: exit_code })
    }
}

/// The engine's answer to `event` in `state`: the next state and the action
/// to carry out. An event that does not answer the last action ends the run.
pub open spec fn step_of(state: SessionView, event: EventView) -> (SessionView, ActionView) {
    match (state, event) {
        (SessionView::Looking { text, key, arguments, forward }, EventView::Found(entry)) => {
            after_lookup(text, key, arguments, forward, Some(entry))
        },
        (SessionView::Looking { text, key, arguments, forward }, EventView::Missing) => {
            after_lookup(text, key, arguments, forward, None)
        },
        (SessionView::Staging { key, arguments, forward }, EventView::Staged) => (
            SessionView::Building { key, arguments },
            ActionView::Build { forward },
        ),
        (SessionView::Building { key, arguments }, EventView::Built { output, status }) => (
            SessionView::StoringLog {
                key,
                arguments,
                log: output,
                exit_code: build_exit_code_of(status) as i32,
            },
            ActionView::StoreLog { log: output },
        ),
        (
            SessionView::StoringLog { key, arguments, log, exit_code },
            EventView::LogStored { output_id },
        ) => (
            SessionView::Committing { arguments, log, exit_code },
            ActionView::Commit {
                key,
                entry: EntryView { output_id, exit_code },
                with_artifact: exit_code == 0,
            },
        ),
        (SessionView::Committing { arguments, log, exit_code }, EventView::Committed) => {
            after_commit(arguments, log, exit_code)
        },
        (SessionView::Committing { arguments, log, exit_code }, EventView::ArtifactMissing) => {
            failed(EngineError::ArtifactMissing)
        },
        (SessionView::Materializing { arguments }, EventView::Materialized) => (
            SessionView::Running,
            ActionView::Run { artifact: Artifact::Cached, arguments },
        ),
        (SessionView::FetchingLog { exit_code }, EventView::Log(bytes)) => (
            SessionView::Done,
            ActionView::Exit { diagnostics: bytes, code: exit_code },
        ),
        (SessionView::Running, EventView::Ran(status)) => (
            SessionView::Done,
            ActionView::Exit {
                diagnostics: Seq::empty(),
                code: exit_code_of(status, RUN_SENTINEL as int) as i32,
            },
        ),
        _ => failed(EngineError::OutOfTurn),
    }
}

/// A copy of `bytes`.
fn copy_of(bytes: &Vec<u8>) -> (copy: Vec<u8>)
    ensures
        copy@ == bytes@,
{
    let copy = bytes.clone();
    assert(copy@ =~= bytes@);
    copy
}

impl Session {
    /// Begins a run on the raw bytes of a script, with the arguments to pass
    /// on to the artifact and the number of times verbosity was asked for.
    pub fn start(input: Vec<u8>, arguments: Vec<String>, verbosity: usize) -> (r: (Session, Action))
        ensures
            (r.0@, r.1@) == start_of(input@, arguments.deep_view(), verbosity),
    {
        let key = get_key(input.as_slice());
        match text_of(input) {
            Ok(text) => {
                let session = Session::Looking {
                    text,
                    key: key.clone(),
                    arguments,
                    forward: verbosity >= 1,
                };
                (session, Action::Lookup { key })
            },
            Err(_) => (Session::Done, Action::Fail(EngineError::NotText)),
        }
    }

    /// Whether the run is over.
    pub fn is_done(&self) -> (done: bool)
        ensures
            done == (self@ is Done),
    {
        match self {
            Session::Done => true,
            _ => false,
        }
    }

    /// Takes the answer to the last action and decides what to do next.
    pub fn step(self, event: Event) -> (r: (Session, Action))
        ensures
            (r.0@, r.1@) == step_of(self@, event@),
    {
        match self {
            Session::Looking { text, key, arguments, forward } => match event {
                Event::Found(entry) => {
                    if entry.exit_code == 0 {
                        (Session::Materializing { arguments }, Action::Materialize { key })
                    } else {
                        (
                            Session::FetchingLog { exit_code: entry.exit_code },
                            Action::FetchLog { output_id: entry.output_id },
                        )
                    }
                },
                Event::Missing => match stage(text.as_str()) {
                    Ok(workspace) => (
                        Session::Staging { key, arguments, forward },
                        Action::Stage { workspace },
                    ),
                    Err(e) => (Session::Done, Action::Fail(EngineError::Stage(e))),
                },
                _ => (Session::Done, Action::Fail(EngineError::OutOfTurn)),
            },
            Session::Staging { key, arguments, forward } => match event {
                Event::Staged => (Session::Building { key, arguments }, Action::Build { forward }),
                _ => (Session::Done, Action::Fail(EngineError::OutOfTurn)),
            },
            Session::Building { key, arguments } => match event {
                Event::Built { output, status } => {
                    let log = copy_of(&output);
                    let exit_code = build_exit_code(status);
                    (
                        Session::StoringLog { key, arguments, log: output, exit_code },
                        Action::StoreLog { log },
                    )
                },
                _ => (Session::Done, Action::Fail(EngineError::OutOfTurn)),
            },
            Session::StoringLog { key, arguments, log, exit_code } => match event {
                Event::LogStored { output_id } => (
                    Session::Committing { arguments, log, exit_code },
                    Action::Commit {
                        key,
                        entry: CacheEntry { output_id, exit_code },
                        with_artifact: exit_code == 0,
                    },
                ),
                _ => (Session::Done, Action::Fail(EngineError::OutOfTurn)),
            },
            Session::Committing { arguments, log, exit_code } => match event {
                Event::Committed => {
                    if exit_code == 0 {
                        (Session::Running, Action::Run { artifact: Artifact::Built, arguments })
                    } else {
                        (Session::Done, Action::Exit { diagnostics: log, code: exit_code })
                    }
                },
                Event::ArtifactMissing => (
                    Session::Done,
                    Action::Fail(EngineError::ArtifactMissing),
                ),
                _ => (Session::Done, Action::Fail(EngineError::OutOfTurn)),
            },
            Session::Materializing { arguments } => match event {
                Event::Materialized => (
                    Session::Running,
                    Action::Run { artifact: Artifact::Cached, arguments },
                ),
                _ => (Session::Done, Action::Fail(EngineError::OutOfTurn)),
            },
            Session::FetchingLog { exit_code } => match event {
                Event::Log(bytes) => (
                    Session::Done,
                    Action::Exit { diagnostics: bytes, code: exit_code },
                ),
                _ => (Session::Done, Action::Fail(EngineError::OutOfTurn)),
            },
            Session::Running => match event {
                Event::Ran(status) => (
                    Session::Done,
                    Action::Exit { diagnostics: Vec::new(), code: run_exit_code(status) },
                ),
                _ => (Session::Done, Action::Fail(EngineError::OutOfTurn)),
            },
            Session::Done => (Session::Done, Action::Fail(EngineError::OutOfTurn)),
        }
    }
}

} // verus!
