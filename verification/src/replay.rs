//! Whole runs against a store, in the abstract, and what holds of them:
//! that an unchanged script is compiled once, that a failed build is given
//! again as it was, and that scripts with different fingerprints do not
//! touch each other's entries.
//!
//! Nothing here is executable. A run is the engine's answers, by
//! [`step_of`], to a world that is given as a value: a [`Store`] and, for
//! everything else that happens outside the engine, an [`Outside`].

use crate::engine::{
    start_of, step_of, ActionView, Artifact, EngineError, EntryView, EventView, SessionView,
};
use crate::fingerprint::fingerprint;
use crate::status::{build_exit_code_of, exit_code_of, Termination, RUN_SENTINEL};
use crate::workspace::staged;
use vstd::prelude::*;

verus! {

/// What the store holds under a fingerprint.
pub struct Record {
    /// The entry.
    pub entry: EntryView,
    /// The data: the artifact of a successful build, nothing for a failed one.
    pub data: Seq<u8>,
}

/// A content-addressed store.
pub struct Store {
    /// What is recorded under each fingerprint.
    pub records: Map<Seq<char>, Record>,
    /// What is stored under each content hash.
    pub blobs: Map<Seq<char>, Seq<u8>>,
}

impl Store {
    /// A store that holds nothing.
    pub open spec fn empty() -> Store {
        Store { records: Map::empty(), blobs: Map::empty() }
    }

    /// The entry recorded under `key`, if there is one.
    pub open spec fn lookup(self, key: Seq<char>) -> Option<EntryView> {
        if self.records.contains_key(key) {
            Some(self.records[key].entry)
        } else {
            None
        }
    }

    /// This store after `data` is recorded under `key` with `entry`,
    /// in place of what was there.
    pub open spec fn write_by_key(self, key: Seq<char>, entry: EntryView, data: Seq<u8>) -> Store {
        Store { records: self.records.insert(key, Record { entry, data }), ..self }
    }

    /// Whether the store holds the build output that each of its entries
    /// names.
    pub open spec fn complete(self) -> bool {
        forall|key: Seq<char>| #[trigger]
            self.records.contains_key(key) ==> self.blobs.contains_key(
                self.records[key].entry.output_id,
            )
    }

    /// This store after `bytes` are stored under the content hash `id`.
    pub open spec fn write_by_hash(self, id: Seq<char>, bytes: Seq<u8>) -> Store {
        Store { blobs: self.blobs.insert(id, bytes), ..self }
    }
}

/// All that happens outside the engine and the store during one run.
pub struct Outside {
    /// What the compiler writes, should it be called.
    pub build_output: Seq<u8>,
    /// How the compiler ends, should it be called.
    pub build_status: Option<Termination>,
    /// The content hash of what the compiler writes.
    pub output_id: Seq<char>,
    /// The artifact that the compiler leaves, if it leaves one.
    pub artifact: Option<Seq<u8>>,
    /// How the artifact ends, should it be run.
    pub run_status: Termination,
}

/// What the driver does with an action: how the store looks afterwards, and
/// the event that it reports. There is no answer to an action that ends the
/// run, nor to a request that the store cannot serve.
pub open spec fn respond(store: Store, outside: Outside, action: ActionView) -> Option<
    (Store, EventView),
> {
    match action {
        ActionView::Lookup { key } => match store.lookup(key) {
            Some(entry) => Some((store, EventView::Found(entry))),
            None => Some((store, EventView::Missing)),
        },
        ActionView::Stage { workspace } => Some((store, EventView::Staged)),
        ActionView::Build { forward } => Some(
            (
                store,
                EventView::Built { output: outside.build_output, status: outside.build_status },
            ),
        ),
        ActionView::StoreLog { log } => Some(
            (
                store.write_by_hash(outside.output_id, log),
                EventView::LogStored { output_id: outside.output_id },
            ),
        ),
        ActionView::Commit { key, entry, with_artifact } => {
            if !with_artifact {
                Some((store.write_by_key(key, entry, Seq::empty()), EventView::Committed))
            } else {
                match outside.artifact {
                    Some(data) => Some((store.write_by_key(key, entry, data), EventView::Committed)),
                    None => Some((store, EventView::ArtifactMissing)),
                }
            }
        },
        ActionView::Materialize { key } => {
            if store.records.contains_key(key) {
                Some((store, EventView::Materialized))
            } else {
                None
            }
        },
        ActionView::Run { artifact, arguments } => Some((store, EventView::Ran(outside.run_status))),
        ActionView::FetchLog { output_id } => {
            if store.blobs.contains_key(output_id) {
                Some((store, EventView::Log(store.blobs[output_id])))
            } else {
                None
            }
        },
        ActionView::Exit { diagnostics, code } => None,
        ActionView::Fail(e) => None,
    }
}

/// A run, as seen from outside: the actions in the order taken, and the
/// store as the run leaves it.
pub struct Run {
    /// The actions, in order.
    pub actions: Seq<ActionView>,
    /// The store after the last action.
    pub store: Store,
}

/// The rest of a run from `state`, with `action` to be carried out next,
/// cut off after `steps` further answers.
pub open spec fn drive(
    state: SessionView,
    action: ActionView,
    store: Store,
    outside: Outside,
    steps: nat,
) -> Run
    decreases steps,
{
    if steps == 0 {
        Run { actions: seq![action], store }
    } else {
        match respond(store, outside, action) {
            None => Run { actions: seq![action], store },
            Some((store_after, event)) => {
                let (next, then) = step_of(state, event);
                let rest = drive(next, then, store_after, outside, (steps - 1) as nat);
                Run { actions: seq![action] + rest.actions, store: rest.store }
            },
        }
    }
}

/// The greatest number of answers in a run: that of a first successful
/// build.
pub open spec fn longest_run() -> nat {
    6
}

/// The run on `input` against `store`.
pub open spec fn run(
    store: Store,
    outside: Outside,
    input: Seq<u8>,
    arguments: Seq<Seq<char>>,
    verbosity: usize,
) -> Run {
    let (state, action) = start_of(input, arguments, verbosity);
    drive(state, action, store, outside, longest_run())
}

/// How often the compiler is called in a sequence of actions.
pub open spec fn builds(actions: Seq<ActionView>) -> nat
    decreases actions.len(),
{
    if actions.len() == 0 {
        0
    } else {
        builds(actions.drop_last()) + if actions.last() is Build {
            1nat
        } else {
            0nat
        }
    }
}

/// Whether `input` is a script that can be staged.
pub open spec fn buildable(input: Seq<u8>) -> bool {
    vstd::utf8::valid_utf8(input) && staged(vstd::utf8::decode_utf8(input)) is Ok
}

/// The exit code recorded for the build that `outside` holds.
pub open spec fn build_code(outside: Outside) -> i32 {
    build_exit_code_of(outside.build_status) as i32
}

/// Whether a build in `outside` ends with an entry in the store: it does
/// unless the compiler reports success and leaves no artifact.
pub open spec fn recordable(outside: Outside) -> bool {
    build_code(outside) != 0 || outside.artifact is Some
}

/// The key under which a run on `input` looks for an entry.
pub open spec fn key_of(input: Seq<u8>) -> Seq<char> {
    fingerprint(input)
}

/// The entry that a build in `outside` is recorded with.
pub open spec fn entry_of(outside: Outside) -> EntryView {
    EntryView { output_id: outside.output_id, exit_code: build_code(outside) }
}

/// The exit code of the tool after the artifact ended as `outside` has it.
pub open spec fn run_code(outside: Outside) -> i32 {
    exit_code_of(outside.run_status, RUN_SENTINEL as int) as i32
}

/// Appending an action adds one call of the compiler if the action is a
/// build, and none otherwise.
proof fn lemma_builds_push(actions: Seq<ActionView>, action: ActionView)
    ensures
        builds(actions.push(action)) == builds(actions) + if action is Build {
            1nat
        } else {
            0nat
        },
{
    assert(actions.push(action).drop_last() =~= actions);
}

/// Input that is not text ends the run at once.
proof fn lemma_not_text(
    store: Store,
    outside: Outside,
    input: Seq<u8>,
    arguments: Seq<Seq<char>>,
    verbosity: usize,
)
    requires
        !vstd::utf8::valid_utf8(input),
    ensures
        run(store, outside, input, arguments, verbosity) == (Run {
            actions: seq![ActionView::Fail(EngineError::NotText)],
            store,
        }),
        builds(run(store, outside, input, arguments, verbosity).actions) == 0,
{
    reveal_with_fuel(drive, 2);
    let fail = ActionView::Fail(EngineError::NotText);
    let none = Seq::<ActionView>::empty();
    let upto_fail = none.push(fail);
    assert(run(store, outside, input, arguments, verbosity).actions =~= upto_fail);
    assert(upto_fail =~= seq![fail]);
    lemma_builds_push(none, fail);
}

/// A run on a recorded successful build: the artifact is copied out and
/// run, and the store stays as it is.
proof fn lemma_hit_success(
    store: Store,
    outside: Outside,
    input: Seq<u8>,
    arguments: Seq<Seq<char>>,
    verbosity: usize,
)
    requires
        vstd::utf8::valid_utf8(input),
        store.lookup(key_of(input)) matches Some(entry) && entry.exit_code == 0,
    ensures
        run(store, outside, input, arguments, verbosity) == (Run {
            actions: seq![
                ActionView::Lookup { key: key_of(input) },
                ActionView::Materialize { key: key_of(input) },
                ActionView::Run { artifact: Artifact::Cached, arguments },
                ActionView::Exit { diagnostics: Seq::empty(), code: run_code(outside) },
            ],
            store,
        }),
        builds(run(store, outside, input, arguments, verbosity).actions) == 0,
{
    reveal_with_fuel(drive, 4);
    let lookup = ActionView::Lookup { key: key_of(input) };
    let materialize = ActionView::Materialize { key: key_of(input) };
    let start = ActionView::Run { artifact: Artifact::Cached, arguments };
    let exit = ActionView::Exit { diagnostics: Seq::empty(), code: run_code(outside) };
    let none = Seq::<ActionView>::empty();
    let upto_lookup = none.push(lookup);
    let upto_materialize = upto_lookup.push(materialize);
    let upto_start = upto_materialize.push(start);
    let upto_exit = upto_start.push(exit);
    assert(run(store, outside, input, arguments, verbosity).actions =~= upto_exit);
    assert(upto_exit =~= seq![lookup, materialize, start, exit]);
    lemma_builds_push(none, lookup);
    lemma_builds_push(upto_lookup, materialize);
    lemma_builds_push(upto_materialize, start);
    lemma_builds_push(upto_start, exit);
}

/// A run on a recorded failed build whose output the store holds: the
/// output is fetched and given again with the recorded exit code, and the
/// store stays as it is.
proof fn lemma_hit_failure(
    store: Store,
    outside: Outside,
    input: Seq<u8>,
    arguments: Seq<Seq<char>>,
    verbosity: usize,
)
    requires
        vstd::utf8::valid_utf8(input),
        store.lookup(key_of(input)) matches Some(entry) && entry.exit_code != 0
            && store.blobs.contains_key(entry.output_id),
    ensures
        run(store, outside, input, arguments, verbosity) == (Run {
            actions: seq![
                ActionView::Lookup { key: key_of(input) },
                ActionView::FetchLog { output_id: store.lookup(key_of(input))->0.output_id },
                ActionView::Exit {
                    diagnostics: store.blobs[store.lookup(key_of(input))->0.output_id],
                    code: store.lookup(key_of(input))->0.exit_code,
                },
            ],
            store,
        }),
        builds(run(store, outside, input, arguments, verbosity).actions) == 0,
{
    reveal_with_fuel(drive, 3);
    let entry = store.lookup(key_of(input))->0;
    let lookup = ActionView::Lookup { key: key_of(input) };
    let fetch = ActionView::FetchLog { output_id: entry.output_id };
    let exit = ActionView::Exit {
        diagnostics: store.blobs[entry.output_id],
        code: entry.exit_code,
    };
    let none = Seq::<ActionView>::empty();
    let upto_lookup = none.push(lookup);
    let upto_fetch = upto_lookup.push(fetch);
    let upto_exit = upto_fetch.push(exit);
    assert(run(store, outside, input, arguments, verbosity).actions =~= upto_exit);
    assert(upto_exit =~= seq![lookup, fetch, exit]);
    lemma_builds_push(none, lookup);
    lemma_builds_push(upto_lookup, fetch);
    lemma_builds_push(upto_fetch, exit);
}

/// A run on a recorded failed build whose output the store has lost stops
/// at the request for it.
proof fn lemma_hit_lost(
    store: Store,
    outside: Outside,
    input: Seq<u8>,
    arguments: Seq<Seq<char>>,
    verbosity: usize,
)
    requires
        vstd::utf8::valid_utf8(input),
        store.lookup(key_of(input)) matches Some(entry) && entry.exit_code != 0
            && !store.blobs.contains_key(entry.output_id),
    ensures
        run(store, outside, input, arguments, verbosity) == (Run {
            actions: seq![
                ActionView::Lookup { key: key_of(input) },
                ActionView::FetchLog { output_id: store.lookup(key_of(input))->0.output_id },
            ],
            store,
        }),
        builds(run(store, outside, input, arguments, verbosity).actions) == 0,
{
    reveal_with_fuel(drive, 3);
    let entry = store.lookup(key_of(input))->0;
    let lookup = ActionView::Lookup { key: key_of(input) };
    let fetch = ActionView::FetchLog { output_id: entry.output_id };
    let none = Seq::<ActionView>::empty();
    let upto_lookup = none.push(lookup);
    let upto_fetch = upto_lookup.push(fetch);
    assert(run(store, outside, input, arguments, verbosity).actions =~= upto_fetch);
    assert(upto_fetch =~= seq![lookup, fetch]);
    lemma_builds_push(none, lookup);
    lemma_builds_push(upto_lookup, fetch);
}

/// A run on a script that is not recorded and cannot be staged fails
/// before anything is compiled or stored.
proof fn lemma_miss_unbuildable(
    store: Store,
    outside: Outside,
    input: Seq<u8>,
    arguments: Seq<Seq<char>>,
    verbosity: usize,
)
    requires
        vstd::utf8::valid_utf8(input),
        store.lookup(key_of(input)) is None,
        staged(vstd::utf8::decode_utf8(input)) is Err,
    ensures
        run(store, outside, input, arguments, verbosity) == (Run {
            actions: seq![
                ActionView::Lookup { key: key_of(input) },
                ActionView::Fail(
                    EngineError::Stage(
                        staged(vstd::utf8::decode_utf8(input))->Err_0,
                    ),
                ),
            ],
            store,
        }),
        builds(run(store, outside, input, arguments, verbosity).actions) == 0,
{
    reveal_with_fuel(drive, 3);
    let lookup = ActionView::Lookup { key: key_of(input) };
    let fail = ActionView::Fail(
        EngineError::Stage(staged(vstd::utf8::decode_utf8(input))->Err_0),
    );
    let none = Seq::<ActionView>::empty();
    let upto_lookup = none.push(lookup);
    let upto_fail = upto_lookup.push(fail);
    assert(run(store, outside, input, arguments, verbosity).actions =~= upto_fail);
    assert(upto_fail =~= seq![lookup, fail]);
    lemma_builds_push(none, lookup);
    lemma_builds_push(upto_lookup, fail);
}

/// The first four actions of a run that compiles.
pub open spec fn build_prefix(outside: Outside, input: Seq<u8>, verbosity: usize) -> Seq<
    ActionView,
> {
    seq![
        ActionView::Lookup { key: key_of(input) },
        ActionView::Stage { workspace: staged(vstd::utf8::decode_utf8(input))->Ok_0 },
        ActionView::Build { forward: verbosity >= 1 },
        ActionView::StoreLog { log: outside.build_output },
    ]
}

/// The compiler is called once in the first four actions of a run that
/// compiles.
proof fn lemma_build_prefix(outside: Outside, input: Seq<u8>, verbosity: usize)
    ensures
        builds(build_prefix(outside, input, verbosity)) == 1,
{
    let actions = build_prefix(outside, input, verbosity);
    let none = Seq::<ActionView>::empty();
    lemma_builds_push(none, actions[0]);
    lemma_builds_push(none.push(actions[0]), actions[1]);
    lemma_builds_push(none.push(actions[0]).push(actions[1]), actions[2]);
    lemma_builds_push(none.push(actions[0]).push(actions[1]).push(actions[2]), actions[3]);
    assert(actions =~= none.push(actions[0]).push(actions[1]).push(actions[2]).push(actions[3]));
}

/// A first run on a script whose build fails: the build's output and exit
/// code are recorded, with no data, and given to the user.
proof fn lemma_miss_failure(
    store: Store,
    outside: Outside,
    input: Seq<u8>,
    arguments: Seq<Seq<char>>,
    verbosity: usize,
)
    requires
        buildable(input),
        store.lookup(key_of(input)) is None,
        build_code(outside) != 0,
    ensures
        run(store, outside, input, arguments, verbosity) == (Run {
            actions: build_prefix(outside, input, verbosity).push(
                ActionView::Commit {
                    key: key_of(input),
                    entry: entry_of(outside),
                    with_artifact: false,
                },
            ).push(
                ActionView::Exit {
                    diagnostics: outside.build_output,
                    code: build_code(outside),
                },
            ),
            store: store.write_by_hash(outside.output_id, outside.build_output).write_by_key(
                key_of(input),
                entry_of(outside),
                Seq::empty(),
            ),
        }),
        builds(run(store, outside, input, arguments, verbosity).actions) == 1,
{
    reveal_with_fuel(drive, 6);
    let prefix = build_prefix(outside, input, verbosity);
    let commit = ActionView::Commit {
        key: key_of(input),
        entry: entry_of(outside),
        with_artifact: false,
    };
    let exit = ActionView::Exit { diagnostics: outside.build_output, code: build_code(outside) };
    assert(run(store, outside, input, arguments, verbosity).actions =~= prefix.push(commit).push(
        exit,
    ));
    lemma_build_prefix(outside, input, verbosity);
    lemma_builds_push(prefix, commit);
    lemma_builds_push(prefix.push(commit), exit);
}

/// A first run on a script whose build succeeds: the artifact is recorded
/// with the build's output and run.
proof fn lemma_miss_success(
    store: Store,
    outside: Outside,
    input: Seq<u8>,
    arguments: Seq<Seq<char>>,
    verbosity: usize,
)
    requires
        buildable(input),
        store.lookup(key_of(input)) is None,
        build_code(outside) == 0,
        outside.artifact is Some,
    ensures
        run(store, outside, input, arguments, verbosity) == (Run {
            actions: build_prefix(outside, input, verbosity).push(
                ActionView::Commit {
                    key: key_of(input),
                    entry: entry_of(outside),
                    with_artifact: true,
                },
            ).push(ActionView::Run { artifact: Artifact::Built, arguments }).push(
                ActionView::Exit { diagnostics: Seq::empty(), code: run_code(outside) },
            ),
            store: store.write_by_hash(outside.output_id, outside.build_output).write_by_key(
                key_of(input),
                entry_of(outside),
                outside.artifact->0,
            ),
        }),
        builds(run(store, outside, input, arguments, verbosity).actions) == 1,
{
    reveal_with_fuel(drive, 7);
    let prefix = build_prefix(outside, input, verbosity);
    let commit = ActionView::Commit {
        key: key_of(input),
        entry: entry_of(outside),
        with_artifact: true,
    };
    let start = ActionView::Run { artifact: Artifact::Built, arguments };
    let exit = ActionView::Exit { diagnostics: Seq::empty(), code: run_code(outside) };
    assert(run(store, outside, input, arguments, verbosity).actions =~= prefix.push(commit).push(
        start,
    ).push(exit));
    lemma_build_prefix(outside, input, verbosity);
    lemma_builds_push(prefix, commit);
    lemma_builds_push(prefix.push(commit), start);
    lemma_builds_push(prefix.push(commit).push(start), exit);
}

/// A first run on a script whose build reports success and leaves no
/// artifact: the build's output is stored, nothing is recorded under the
/// fingerprint, and the run fails.
proof fn lemma_miss_no_artifact(
    store: Store,
    outside: Outside,
    input: Seq<u8>,
    arguments: Seq<Seq<char>>,
    verbosity: usize,
)
    requires
        buildable(input),
        store.lookup(key_of(input)) is None,
        build_code(outside) == 0,
        outside.artifact is None,
    ensures
        run(store, outside, input, arguments, verbosity) == (Run {
            actions: build_prefix(outside, input, verbosity).push(
                ActionView::Commit {
                    key: key_of(input),
                    entry: entry_of(outside),
                    with_artifact: true,
                },
            ).push(ActionView::Fail(EngineError::ArtifactMissing)),
            store: store.write_by_hash(outside.output_id, outside.build_output),
        }),
        builds(run(store, outside, input, arguments, verbosity).actions) == 1,
{
    reveal_with_fuel(drive, 6);
    let prefix = build_prefix(outside, input, verbosity);
    let commit = ActionView::Commit {
        key: key_of(input),
        entry: entry_of(outside),
        with_artifact: true,
    };
    let fail = ActionView::Fail(EngineError::ArtifactMissing);
    assert(run(store, outside, input, arguments, verbosity).actions =~= prefix.push(commit).push(
        fail,
    ));
    lemma_build_prefix(outside, input, verbosity);
    lemma_builds_push(prefix, commit);
    lemma_builds_push(prefix.push(commit), fail);
}

/// A run on text begins by looking up the fingerprint of the raw input.
/// Nothing is taken from the input before it is hashed: a shebang line,
/// frontmatter and whitespace all count.
pub proof fn lemma_run_looks_up_raw_fingerprint(
    store: Store,
    outside: Outside,
    input: Seq<u8>,
    arguments: Seq<Seq<char>>,
    verbosity: usize,
)
    ensures
        vstd::utf8::valid_utf8(input) ==> run(store, outside, input, arguments, verbosity).actions[0]
            == (ActionView::Lookup { key: fingerprint(input) }),
{
    reveal_with_fuel(drive, 1);
}

/// A run on a script that the store has an entry for compiles nothing and
/// leaves the store as it is.
pub proof fn lemma_hit_compiles_nothing(
    store: Store,
    outside: Outside,
    input: Seq<u8>,
    arguments: Seq<Seq<char>>,
    verbosity: usize,
)
    ensures
        store.lookup(key_of(input)) is Some ==> {
            &&& builds(run(store, outside, input, arguments, verbosity).actions) == 0
            &&& run(store, outside, input, arguments, verbosity).store == store
        },
{
    if store.lookup(key_of(input)) is Some {
        let entry = store.lookup(key_of(input))->0;
        if !vstd::utf8::valid_utf8(input) {
            lemma_not_text(store, outside, input, arguments, verbosity);
        } else if entry.exit_code == 0 {
            lemma_hit_success(store, outside, input, arguments, verbosity);
        } else if store.blobs.contains_key(entry.output_id) {
            lemma_hit_failure(store, outside, input, arguments, verbosity);
        } else {
            lemma_hit_lost(store, outside, input, arguments, verbosity);
        }
    }
}

/// A run on a script that the store has no entry for calls the compiler
/// once if the script can be staged, and not at all if it cannot. Where the
/// build can be recorded, the store has its entry afterwards, and the
/// build's output under the entry's content hash.
pub proof fn lemma_miss_compiles_once(
    store: Store,
    outside: Outside,
    input: Seq<u8>,
    arguments: Seq<Seq<char>>,
    verbosity: usize,
)
    ensures
        store.lookup(key_of(input)) is None ==> {
            let after = run(store, outside, input, arguments, verbosity);
            &&& builds(after.actions) == if buildable(input) {
                1nat
            } else {
                0nat
            }
            &&& buildable(input) && recordable(outside) ==> {
                &&& after.store.lookup(key_of(input)) == Some(entry_of(outside))
                &&& after.store.blobs.contains_key(outside.output_id)
                &&& after.store.blobs[outside.output_id] == outside.build_output
            }
            &&& !(buildable(input) && recordable(outside)) ==> after.store.lookup(key_of(input))
                is None
        },
{
    if store.lookup(key_of(input)) is None {
        if !vstd::utf8::valid_utf8(input) {
            lemma_not_text(store, outside, input, arguments, verbosity);
        } else if !buildable(input) {
            lemma_miss_unbuildable(store, outside, input, arguments, verbosity);
        } else if build_code(outside) != 0 {
            lemma_miss_failure(store, outside, input, arguments, verbosity);
        } else if outside.artifact is Some {
            lemma_miss_success(store, outside, input, arguments, verbosity);
        } else {
            lemma_miss_no_artifact(store, outside, input, arguments, verbosity);
        }
    }
}

/// Run twice against a store that starts empty, a script that can be
/// staged is compiled once, by the first run; the second run compiles
/// nothing.
///
/// The second half needs the first run to have recorded its build: a
/// compiler that reports success and leaves no artifact is called again.
/// What the two runs are given as arguments and verbosity, and what happens
/// outside during each, makes no difference.
pub proof fn lemma_unchanged_script_compiles_once(
    first: Outside,
    second: Outside,
    input: Seq<u8>,
    first_arguments: Seq<Seq<char>>,
    second_arguments: Seq<Seq<char>>,
    first_verbosity: usize,
    second_verbosity: usize,
)
    ensures
        ({
            let one = run(Store::empty(), first, input, first_arguments, first_verbosity);
            let two = run(one.store, second, input, second_arguments, second_verbosity);
            &&& buildable(input) ==> builds(one.actions) == 1
            &&& buildable(input) && recordable(first) ==> builds(two.actions) == 0
        }),
{
    let one = run(Store::empty(), first, input, first_arguments, first_verbosity);
    lemma_miss_compiles_once(Store::empty(), first, input, first_arguments, first_verbosity);
    lemma_hit_compiles_nothing(one.store, second, input, second_arguments, second_verbosity);
}

/// A failed build is given again as it was. The first run on a script
/// whose build fails ends with the compiler's output as diagnostics and the
/// build's exit code; the next run on the same input ends with the same
/// diagnostics and the same exit code, and compiles nothing.
pub proof fn lemma_failed_build_is_given_again(
    store: Store,
    first: Outside,
    second: Outside,
    input: Seq<u8>,
    first_arguments: Seq<Seq<char>>,
    second_arguments: Seq<Seq<char>>,
    first_verbosity: usize,
    second_verbosity: usize,
)
    ensures
        ({
            let one = run(store, first, input, first_arguments, first_verbosity);
            let two = run(one.store, second, input, second_arguments, second_verbosity);
            let end = ActionView::Exit {
                diagnostics: first.build_output,
                code: build_code(first),
            };
            store.lookup(key_of(input)) is None && buildable(input) && build_code(first) != 0 ==> {
                &&& one.actions.last() == end
                &&& two.actions.last() == end
                &&& builds(two.actions) == 0
                &&& two.store == one.store
            }
        }),
{
    if store.lookup(key_of(input)) is None && buildable(input) && build_code(first) != 0 {
        let one = run(store, first, input, first_arguments, first_verbosity);
        lemma_miss_failure(store, first, input, first_arguments, first_verbosity);
        lemma_hit_failure(one.store, second, input, second_arguments, second_verbosity);
    }
}

/// A recorded artifact is run as the freshly built one was. After a first
/// run that built and recorded an artifact, the next run on the same input
/// compiles nothing, finds that artifact in the store, and runs it; both
/// runs pass their arguments on unchanged and end with the exit code that
/// stands for how the artifact ended. So where the artifact ends alike, the
/// two runs end alike.
pub proof fn lemma_cached_artifact_runs_like_built(
    store: Store,
    first: Outside,
    second: Outside,
    input: Seq<u8>,
    first_arguments: Seq<Seq<char>>,
    second_arguments: Seq<Seq<char>>,
    first_verbosity: usize,
    second_verbosity: usize,
)
    ensures
        ({
            let one = run(store, first, input, first_arguments, first_verbosity);
            let two = run(one.store, second, input, second_arguments, second_verbosity);
            store.lookup(key_of(input)) is None && buildable(input) && build_code(first) == 0
                && first.artifact is Some ==> {
                &&& one.actions.len() == 7
                &&& one.actions[5] == ActionView::Run {
                    artifact: Artifact::Built,
                    arguments: first_arguments,
                }
                &&& one.actions.last() == ActionView::Exit {
                    diagnostics: Seq::empty(),
                    code: run_code(first),
                }
                &&& one.store.records[key_of(input)].data == first.artifact->0
                &&& two.actions.len() == 4
                &&& two.actions[2] == ActionView::Run {
                    artifact: Artifact::Cached,
                    arguments: second_arguments,
                }
                &&& two.actions.last() == ActionView::Exit {
                    diagnostics: Seq::empty(),
                    code: run_code(second),
                }
                &&& builds(two.actions) == 0
                &&& two.store == one.store
                &&& first.run_status == second.run_status ==> two.actions.last()
                    == one.actions.last()
            }
        }),
{
    if store.lookup(key_of(input)) is None && buildable(input) && build_code(first) == 0
        && first.artifact is Some {
        let one = run(store, first, input, first_arguments, first_verbosity);
        lemma_miss_success(store, first, input, first_arguments, first_verbosity);
        lemma_hit_success(one.store, second, input, second_arguments, second_verbosity);
    }
}

/// A run writes under no fingerprint but that of its own input, and under
/// no content hash but that of its own build's output.
pub proof fn lemma_run_keeps_to_its_key(
    store: Store,
    outside: Outside,
    input: Seq<u8>,
    arguments: Seq<Seq<char>>,
    verbosity: usize,
)
    ensures
        ({
            let after = run(store, outside, input, arguments, verbosity).store;
            &&& after.records == store.records || exists|record: Record|
                after.records == store.records.insert(key_of(input), record)
            &&& after.blobs == store.blobs || after.blobs == store.blobs.insert(
                outside.output_id,
                outside.build_output,
            )
        }),
{
    let after = run(store, outside, input, arguments, verbosity).store;
    if store.lookup(key_of(input)) is Some {
        lemma_hit_compiles_nothing(store, outside, input, arguments, verbosity);
    } else if !vstd::utf8::valid_utf8(input) {
        lemma_not_text(store, outside, input, arguments, verbosity);
    } else if !buildable(input) {
        lemma_miss_unbuildable(store, outside, input, arguments, verbosity);
    } else if build_code(outside) != 0 {
        lemma_miss_failure(store, outside, input, arguments, verbosity);
        let record = Record { entry: entry_of(outside), data: Seq::empty() };
        assert(after.records == store.records.insert(key_of(input), record));
    } else if outside.artifact is Some {
        lemma_miss_success(store, outside, input, arguments, verbosity);
        let record = Record { entry: entry_of(outside), data: outside.artifact->0 };
        assert(after.records == store.records.insert(key_of(input), record));
    } else {
        lemma_miss_no_artifact(store, outside, input, arguments, verbosity);
    }
}

/// Whether what `outside` stores under its build's content hash is what
/// `store` holds there, if it holds anything: whether the hash stands for
/// the content.
pub open spec fn agrees_on_content(store: Store, outside: Outside) -> bool {
    store.blobs.contains_key(outside.output_id) ==> store.blobs[outside.output_id]
        == outside.build_output
}

/// What is recorded stays as it is: no run changes or removes an entry
/// that the store holds, whatever its input. Nor does a run change what the
/// store holds under a content hash, as long as the content hash of its
/// build's output stands for that output.
pub proof fn lemma_records_are_never_rewritten(
    store: Store,
    outside: Outside,
    input: Seq<u8>,
    arguments: Seq<Seq<char>>,
    verbosity: usize,
)
    ensures
        ({
            let after = run(store, outside, input, arguments, verbosity).store;
            &&& forall|key: Seq<char>| #[trigger]
                store.records.contains_key(key) ==> after.records.contains_key(key)
                    && after.records[key] == store.records[key]
            &&& agrees_on_content(store, outside) ==> forall|id: Seq<char>| #[trigger]
                store.blobs.contains_key(id) ==> after.blobs.contains_key(id) && after.blobs[id]
                    == store.blobs[id]
        }),
{
    lemma_run_keeps_to_its_key(store, outside, input, arguments, verbosity);
    lemma_hit_compiles_nothing(store, outside, input, arguments, verbosity);
}

/// A run leaves a complete store complete: the build's output is stored
/// before the entry that names it.
pub proof fn lemma_run_keeps_store_complete(
    store: Store,
    outside: Outside,
    input: Seq<u8>,
    arguments: Seq<Seq<char>>,
    verbosity: usize,
)
    ensures
        store.complete() ==> run(store, outside, input, arguments, verbosity).store.complete(),
{
    if store.complete() {
        let after = run(store, outside, input, arguments, verbosity).store;
        if store.lookup(key_of(input)) is Some {
            lemma_hit_compiles_nothing(store, outside, input, arguments, verbosity);
        } else if !vstd::utf8::valid_utf8(input) {
            lemma_not_text(store, outside, input, arguments, verbosity);
        } else if !buildable(input) {
            lemma_miss_unbuildable(store, outside, input, arguments, verbosity);
        } else if build_code(outside) != 0 {
            lemma_miss_failure(store, outside, input, arguments, verbosity);
            assert forall|key: Seq<char>| #[trigger]
                after.records.contains_key(key) implies after.blobs.contains_key(
                after.records[key].entry.output_id,
            ) by {
                if key != key_of(input) {
                    assert(store.records.contains_key(key));
                }
            }
        } else if outside.artifact is Some {
            lemma_miss_success(store, outside, input, arguments, verbosity);
            assert forall|key: Seq<char>| #[trigger]
                after.records.contains_key(key) implies after.blobs.contains_key(
                after.records[key].entry.output_id,
            ) by {
                if key != key_of(input) {
                    assert(store.records.contains_key(key));
                }
            }
        } else {
            lemma_miss_no_artifact(store, outside, input, arguments, verbosity);
            assert forall|key: Seq<char>| #[trigger]
                after.records.contains_key(key) implies after.blobs.contains_key(
                after.records[key].entry.output_id,
            ) by {
                assert(store.records.contains_key(key));
            }
        }
    }
}

/// Against a complete store every run comes to an end: its last action is
/// an exit or a failure, and it takes at most seven actions.
pub proof fn lemma_run_ends(
    store: Store,
    outside: Outside,
    input: Seq<u8>,
    arguments: Seq<Seq<char>>,
    verbosity: usize,
)
    ensures
        store.complete() ==> {
            let actions = run(store, outside, input, arguments, verbosity).actions;
            &&& 1 <= actions.len() <= 7
            &&& actions.last() is Exit || actions.last() is Fail
        },
{
    if store.complete() {
        if !vstd::utf8::valid_utf8(input) {
            lemma_not_text(store, outside, input, arguments, verbosity);
        } else if store.lookup(key_of(input)) is Some {
            let entry = store.lookup(key_of(input))->0;
            assert(store.records.contains_key(key_of(input)));
            if entry.exit_code == 0 {
                lemma_hit_success(store, outside, input, arguments, verbosity);
            } else {
                lemma_hit_failure(store, outside, input, arguments, verbosity);
            }
        } else if !buildable(input) {
            lemma_miss_unbuildable(store, outside, input, arguments, verbosity);
        } else if build_code(outside) != 0 {
            lemma_miss_failure(store, outside, input, arguments, verbosity);
        } else if outside.artifact is Some {
            lemma_miss_success(store, outside, input, arguments, verbosity);
        } else {
            lemma_miss_no_artifact(store, outside, input, arguments, verbosity);
        }
    }
}

/// Scripts with different fingerprints have entries of their own: a run on
/// one script changes nothing in what a later run on the other does.
///
/// The actions of a run on `input` are the same against a complete `store`
/// and against what a run on `other` leaves of it, provided that the two
/// inputs differ in their fingerprints and that the other run's content hash
/// stands for its content.
pub proof fn lemma_other_script_does_not_disturb(
    store: Store,
    outside: Outside,
    input: Seq<u8>,
    arguments: Seq<Seq<char>>,
    verbosity: usize,
    other_outside: Outside,
    other: Seq<u8>,
    other_arguments: Seq<Seq<char>>,
    other_verbosity: usize,
)
    ensures
        ({
            let between = run(store, other_outside, other, other_arguments, other_verbosity).store;
            store.complete() && key_of(input) != key_of(other) && agrees_on_content(
                store,
                other_outside,
            ) ==> {
                &&& between.lookup(key_of(input)) == store.lookup(key_of(input))
                &&& run(between, outside, input, arguments, verbosity).actions == run(
                    store,
                    outside,
                    input,
                    arguments,
                    verbosity,
                ).actions
            }
        }),
{
    let between = run(store, other_outside, other, other_arguments, other_verbosity).store;
    if store.complete() && key_of(input) != key_of(other) && agrees_on_content(
        store,
        other_outside,
    ) {
        lemma_run_keeps_to_its_key(store, other_outside, other, other_arguments, other_verbosity);
        assert(between.lookup(key_of(input)) == store.lookup(key_of(input)));
        if !vstd::utf8::valid_utf8(input) {
            lemma_not_text(store, outside, input, arguments, verbosity);
            lemma_not_text(between, outside, input, arguments, verbosity);
        } else if store.lookup(key_of(input)) is Some {
            let entry = store.lookup(key_of(input))->0;
            assert(store.records.contains_key(key_of(input)));
            if entry.exit_code == 0 {
                lemma_hit_success(store, outside, input, arguments, verbosity);
                lemma_hit_success(between, outside, input, arguments, verbosity);
            } else {
                lemma_hit_failure(store, outside, input, arguments, verbosity);
                lemma_hit_failure(between, outside, input, arguments, verbosity);
            }
        } else if !buildable(input) {
            lemma_miss_unbuildable(store, outside, input, arguments, verbosity);
            lemma_miss_unbuildable(between, outside, input, arguments, verbosity);
        } else if build_code(outside) != 0 {
            lemma_miss_failure(store, outside, input, arguments, verbosity);
            lemma_miss_failure(between, outside, input, arguments, verbosity);
        } else if outside.artifact is Some {
            lemma_miss_success(store, outside, input, arguments, verbosity);
            lemma_miss_success(between, outside, input, arguments, verbosity);
        } else {
            lemma_miss_no_artifact(store, outside, input, arguments, verbosity);
            lemma_miss_no_artifact(between, outside, input, arguments, verbosity);
        }
    }
}

} // verus!
