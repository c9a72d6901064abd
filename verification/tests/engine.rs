use clawbang::engine::{Action, Artifact, CacheEntry, EngineError, Event, Session};
use clawbang::fingerprint::get_key;
use clawbang::manifest::ManifestError;
use clawbang::script::FrontmatterError;
use clawbang::status::Termination;
use clawbang::workspace::{StageError, Workspace};
use std::collections::HashMap;

const SCRIPT: &[u8] =
    b"#!/x\n+++\n[package]\nfoo=\"bar\"\n+++\nfn main(){std::process::exit(7)}";

struct Store {
    records: HashMap<String, (CacheEntry, Vec<u8>)>,
    blobs: HashMap<String, Vec<u8>>,
}

struct Outside {
    build_output: Vec<u8>,
    build_status: Option<Termination>,
    artifact: Option<Vec<u8>>,
    run_status: Termination,
}

fn empty_store() -> Store {
    Store {
        records: HashMap::new(),
        blobs: HashMap::new(),
    }
}

fn good_build(run_status: Termination) -> Outside {
    Outside {
        build_output: b"   Compiling bin v0.0.1\n    Finished release\n".to_vec(),
        build_status: Some(Termination::Exited(0)),
        artifact: Some(vec![0x7f, b'E', b'L', b'F', 1, 2, 3]),
        run_status,
    }
}

fn bad_build() -> Outside {
    Outside {
        build_output: b"\x1b[31merror\x1b[0m: expected `;`\n\xff\xfe".to_vec(),
        build_status: Some(Termination::Exited(101)),
        artifact: None,
        run_status: Termination::Undetermined,
    }
}

fn content_id(bytes: &[u8]) -> String {
    format!("sha256-{}", get_key(bytes))
}

fn respond(store: &mut Store, outside: &Outside, action: &Action) -> Option<Event> {
    match action {
        Action::Lookup { key } => Some(match store.records.get(key) {
            Some((entry, _)) => Event::Found(entry.clone()),
            None => Event::Missing,
        }),
        Action::Stage { .. } => Some(Event::Staged),
        Action::Build { .. } => Some(Event::Built {
            output: outside.build_output.clone(),
            status: outside.build_status,
        }),
        Action::StoreLog { log } => {
            let output_id = content_id(log);
            store.blobs.insert(output_id.clone(), log.clone());
            Some(Event::LogStored { output_id })
        }
        Action::Commit {
            key,
            entry,
            with_artifact,
        } => {
            let data = if *with_artifact {
                match &outside.artifact {
                    Some(data) => data.clone(),
                    None => return Some(Event::ArtifactMissing),
                }
            } else {
                Vec::new()
            };
            store.records.insert(key.clone(), (entry.clone(), data));
            Some(Event::Committed)
        }
        Action::Materialize { key } => {
            assert!(store.records.contains_key(key));
            Some(Event::Materialized)
        }
        Action::Run { .. } => Some(Event::Ran(outside.run_status)),
        Action::FetchLog { output_id } => Some(Event::Log(store.blobs[output_id].clone())),
        Action::Exit { .. } => None,
        Action::Fail(_) => None,
    }
}

fn run(
    store: &mut Store,
    outside: &Outside,
    input: &[u8],
    arguments: &[&str],
    verbosity: usize,
) -> Vec<Action> {
    let arguments: Vec<String> = arguments.iter().map(|a| a.to_string()).collect();
    let (mut session, mut action) = Session::start(input.to_vec(), arguments, verbosity);
    let mut actions = Vec::new();
    loop {
        actions.push(action.clone());
        match respond(store, outside, &action) {
            Some(event) => {
                assert!(!session.is_done());
                let (next, then) = session.step(event);
                session = next;
                action = then;
            }
            None => {
                assert!(session.is_done());
                return actions;
            }
        }
    }
}

fn builds(actions: &[Action]) -> usize {
    actions
        .iter()
        .filter(|a| matches!(a, Action::Build { .. }))
        .count()
}

fn texts(arguments: &[&str]) -> Vec<String> {
    arguments.iter().map(|a| a.to_string()).collect()
}

#[test]
fn first_run_builds_records_and_runs() {
    let mut store = empty_store();
    let outside = good_build(Termination::Exited(7));
    let actions = run(&mut store, &outside, SCRIPT, &["a", "b c"], 0);
    let key = get_key(SCRIPT);
    let entry = CacheEntry {
        output_id: content_id(&outside.build_output),
        exit_code: 0,
    };
    assert_eq!(
        actions,
        vec![
            Action::Lookup { key: key.clone() },
            Action::Stage {
                workspace: Workspace {
                    manifest:
                        "[package]\nedition = '2021'\nfoo = 'bar'\nname = 'bin'\nversion = '0.0.1'\n"
                            .to_string(),
                    source: "fn main(){std::process::exit(7)}".to_string(),
                }
            },
            Action::Build { forward: false },
            Action::StoreLog {
                log: outside.build_output.clone()
            },
            Action::Commit {
                key: key.clone(),
                entry: entry.clone(),
                with_artifact: true
            },
            Action::Run {
                artifact: Artifact::Built,
                arguments: texts(&["a", "b c"])
            },
            Action::Exit {
                diagnostics: vec![],
                code: 7
            },
        ]
    );
    assert_eq!(store.records.len(), 1);
    assert_eq!(
        store.records[&key],
        (entry, vec![0x7f, b'E', b'L', b'F', 1, 2, 3])
    );
    assert_eq!(
        store.blobs[&content_id(&outside.build_output)],
        outside.build_output
    );
}

#[test]
fn later_runs_replay_the_artifact_without_building() {
    let mut store = empty_store();
    let first = run(&mut store, &good_build(Termination::Exited(7)), SCRIPT, &[], 0);
    assert_eq!(builds(&first), 1);
    let key = get_key(SCRIPT);
    for _ in 0..3 {
        let again = run(&mut store, &good_build(Termination::Exited(7)), SCRIPT, &["x"], 0);
        assert_eq!(
            again,
            vec![
                Action::Lookup { key: key.clone() },
                Action::Materialize { key: key.clone() },
                Action::Run {
                    artifact: Artifact::Cached,
                    arguments: texts(&["x"])
                },
                Action::Exit {
                    diagnostics: vec![],
                    code: 7
                },
            ]
        );
        assert_eq!(builds(&again), 0);
        assert_eq!(store.records.len(), 1);
        assert_eq!(store.records[&key].0.exit_code, 0);
    }
}

#[test]
fn same_input_is_compiled_once() {
    let mut store = empty_store();
    let outside = good_build(Termination::Exited(0));
    assert_eq!(builds(&run(&mut store, &outside, b"fn main() {}", &[], 0)), 1);
    assert_eq!(builds(&run(&mut store, &outside, b"fn main() {}", &[], 0)), 0);
    assert_eq!(builds(&run(&mut store, &bad_build(), b"fn main() {}", &[], 2)), 0);
}

#[test]
fn failed_build_is_recorded_and_reported() {
    let mut store = empty_store();
    let outside = bad_build();
    let input = b"fn main() { let x = 1 }";
    let key = get_key(input);
    let actions = run(&mut store, &outside, input, &["ignored"], 0);
    assert_eq!(actions.len(), 6);
    assert_eq!(
        actions[4],
        Action::Commit {
            key: key.clone(),
            entry: CacheEntry {
                output_id: content_id(&outside.build_output),
                exit_code: 101
            },
            with_artifact: false
        }
    );
    assert_eq!(
        actions[5],
        Action::Exit {
            diagnostics: outside.build_output.clone(),
            code: 101
        }
    );
    assert_eq!(builds(&actions), 1);
    assert_eq!(store.records[&key].1, Vec::<u8>::new());
}

#[test]
fn failed_build_is_given_again_without_building() {
    let mut store = empty_store();
    let outside = bad_build();
    let input = b"fn main() { let x = 1 }";
    let first = run(&mut store, &outside, input, &[], 0);
    let second = run(&mut store, &good_build(Termination::Exited(0)), input, &[], 0);
    assert_eq!(
        second,
        vec![
            Action::Lookup {
                key: get_key(input)
            },
            Action::FetchLog {
                output_id: content_id(&outside.build_output)
            },
            Action::Exit {
                diagnostics: outside.build_output.clone(),
                code: 101
            },
        ]
    );
    assert_eq!(first.last(), second.last());
    assert_eq!(builds(&second), 0);
    let third = run(&mut store, &outside, input, &[], 1);
    assert_eq!(third, second);
}

#[test]
fn scripts_that_differ_in_the_shebang_have_entries_of_their_own() {
    let one: &[u8] = b"#!/usr/bin/env clawbang\nfn main() {}";
    let two: &[u8] = b"#!/usr/local/bin/clawbang\nfn main() {}";
    let mut store = empty_store();
    let built_one = run(&mut store, &good_build(Termination::Exited(1)), one, &[], 0);
    let built_two = run(&mut store, &bad_build(), two, &[], 0);
    assert_eq!(builds(&built_one), 1);
    assert_eq!(builds(&built_two), 1);
    assert_eq!(built_one[1], built_two[1]);
    assert_eq!(store.records.len(), 2);
    assert_eq!(store.records[&get_key(one)].0.exit_code, 0);
    assert_eq!(store.records[&get_key(two)].0.exit_code, 101);
    let again_one = run(&mut store, &bad_build(), one, &[], 0);
    assert_eq!(
        again_one.last(),
        Some(&Action::Exit {
            diagnostics: vec![],
            code: -1
        })
    );
    assert_eq!(again_one[1], Action::Materialize { key: get_key(one) });
    let again_two = run(&mut store, &good_build(Termination::Exited(0)), two, &[], 0);
    assert_eq!(again_two.last(), built_two.last());
}

#[test]
fn replayed_artifact_gets_the_same_arguments_and_exit_code() {
    let mut store = empty_store();
    let outside = good_build(Termination::Exited(3));
    let first = run(&mut store, &outside, SCRIPT, &["--flag", "", "two words"], 0);
    let second = run(&mut store, &outside, SCRIPT, &["--flag", "", "two words"], 0);
    assert_eq!(
        first[5],
        Action::Run {
            artifact: Artifact::Built,
            arguments: texts(&["--flag", "", "two words"])
        }
    );
    assert_eq!(
        second[2],
        Action::Run {
            artifact: Artifact::Cached,
            arguments: texts(&["--flag", "", "two words"])
        }
    );
    assert_eq!(first.last(), second.last());
    assert_eq!(
        second.last(),
        Some(&Action::Exit {
            diagnostics: vec![],
            code: 3
        })
    );
}

#[test]
fn artifact_killed_by_a_signal_gives_the_signal_number() {
    let mut store = empty_store();
    let actions = run(&mut store, &good_build(Termination::Signaled(9)), SCRIPT, &[], 0);
    assert_eq!(
        actions.last(),
        Some(&Action::Exit {
            diagnostics: vec![],
            code: 9
        })
    );
}

#[test]
fn custom_package_name_is_not_built_under() {
    let mut store = empty_store();
    let input = b"+++\n[package]\nname = \"custom\"\nversion = \"3.0.0\"\n+++\nfn main() {}";
    let actions = run(&mut store, &good_build(Termination::Exited(0)), input, &[], 0);
    assert_eq!(
        actions[1],
        Action::Stage {
            workspace: Workspace {
                manifest: "[package]\nedition = '2021'\nname = 'bin'\nversion = '0.0.1'\n"
                    .to_string(),
                source: "fn main() {}".to_string(),
            }
        }
    );
}

#[test]
fn verbosity_turns_forwarding_on() {
    let mut store = empty_store();
    let quiet = run(&mut store, &good_build(Termination::Exited(0)), b"a", &[], 0);
    assert_eq!(quiet[2], Action::Build { forward: false });
    let loud = run(&mut store, &good_build(Termination::Exited(0)), b"b", &[], 1);
    assert_eq!(loud[2], Action::Build { forward: true });
    let louder = run(&mut store, &good_build(Termination::Exited(0)), b"c", &[], 3);
    assert_eq!(louder[2], Action::Build { forward: true });
}

#[test]
fn build_without_a_status_is_recorded_as_failed() {
    let mut store = empty_store();
    let outside = Outside {
        build_output: b"killed".to_vec(),
        build_status: None,
        artifact: None,
        run_status: Termination::Undetermined,
    };
    let actions = run(&mut store, &outside, b"fn main() {}", &[], 0);
    assert_eq!(
        actions.last(),
        Some(&Action::Exit {
            diagnostics: b"killed".to_vec(),
            code: 1
        })
    );
    assert_eq!(store.records[&get_key(b"fn main() {}")].0.exit_code, 1);
}

#[test]
fn build_killed_by_a_signal_is_recorded_with_the_signal_number() {
    let mut store = empty_store();
    let outside = Outside {
        build_output: vec![],
        build_status: Some(Termination::Signaled(15)),
        artifact: None,
        run_status: Termination::Undetermined,
    };
    let actions = run(&mut store, &outside, b"fn main() {}", &[], 0);
    assert_eq!(
        actions.last(),
        Some(&Action::Exit {
            diagnostics: vec![],
            code: 15
        })
    );
}

#[test]
fn successful_build_without_artifact_fails_and_records_nothing() {
    let mut store = empty_store();
    let outside = Outside {
        build_output: b"Finished".to_vec(),
        build_status: Some(Termination::Exited(0)),
        artifact: None,
        run_status: Termination::Exited(0),
    };
    let actions = run(&mut store, &outside, b"fn main() {}", &[], 0);
    assert_eq!(
        actions.last(),
        Some(&Action::Fail(EngineError::ArtifactMissing))
    );
    assert!(store.records.is_empty());
    assert_eq!(builds(&run(&mut store, &outside, b"fn main() {}", &[], 0)), 1);
}

#[test]
fn input_that_is_not_text_fails_at_once() {
    let (session, action) = Session::start(vec![b'f', b'n', 0xff], vec![], 0);
    assert!(session.is_done());
    assert_eq!(action, Action::Fail(EngineError::NotText));
    let (session, action) = Session::start(vec![0xc3], vec![], 0);
    assert!(session.is_done());
    assert_eq!(action, Action::Fail(EngineError::NotText));
}

#[test]
fn run_starts_with_a_lookup_of_the_fingerprint() {
    let (session, action) = Session::start(SCRIPT.to_vec(), texts(&["a"]), 0);
    assert!(!session.is_done());
    assert_eq!(
        action,
        Action::Lookup {
            key: get_key(SCRIPT)
        }
    );
    let (_, action) = Session::start("// h\u{e9}".as_bytes().to_vec(), vec![], 0);
    assert_eq!(
        action,
        Action::Lookup {
            key: get_key("// h\u{e9}".as_bytes())
        }
    );
}

#[test]
fn script_that_cannot_be_staged_fails_on_a_miss() {
    let mut store = empty_store();
    let outside = good_build(Termination::Exited(0));
    let unclosed = run(&mut store, &outside, b"+++\n[package]\nfn main() {}", &[], 0);
    assert_eq!(
        unclosed.last(),
        Some(&Action::Fail(EngineError::Stage(StageError::Frontmatter(
            FrontmatterError::Unclosed
        ))))
    );
    assert_eq!(unclosed.len(), 2);
    let broken = run(&mut store, &outside, b"+++\n= 1\n+++\nfn main() {}", &[], 0);
    assert_eq!(
        broken.last(),
        Some(&Action::Fail(EngineError::Stage(StageError::Manifest(
            ManifestError::Syntax
        ))))
    );
    assert!(store.records.is_empty());
    assert!(store.blobs.is_empty());
}

#[test]
fn recorded_entry_is_replayed_even_if_the_script_could_not_be_staged() {
    let input = b"+++\n[package]\nfn main() {}";
    let mut store = empty_store();
    store.records.insert(
        get_key(input),
        (
            CacheEntry {
                output_id: "sha256-x".to_string(),
                exit_code: 0,
            },
            vec![1],
        ),
    );
    let actions = run(&mut store, &good_build(Termination::Exited(5)), input, &[], 0);
    assert_eq!(
        actions.last(),
        Some(&Action::Exit {
            diagnostics: vec![],
            code: 5
        })
    );
}

#[test]
fn event_out_of_turn_ends_the_run() {
    let (session, _) = Session::start(b"fn main() {}".to_vec(), vec![], 0);
    let (session, action) = session.step(Event::Staged);
    assert_eq!(action, Action::Fail(EngineError::OutOfTurn));
    assert!(session.is_done());
    let (session, action) = session.step(Event::Missing);
    assert_eq!(action, Action::Fail(EngineError::OutOfTurn));
    assert!(session.is_done());
}

#[test]
fn every_state_rejects_an_event_that_is_not_its_answer() {
    let states: Vec<Session> = vec![
        Session::Staging {
            key: "k".to_string(),
            arguments: vec![],
            forward: false,
        },
        Session::Building {
            key: "k".to_string(),
            arguments: vec![],
        },
        Session::StoringLog {
            key: "k".to_string(),
            arguments: vec![],
            log: vec![],
            exit_code: 0,
        },
        Session::Committing {
            arguments: vec![],
            log: vec![],
            exit_code: 0,
        },
        Session::Materializing { arguments: vec![] },
        Session::FetchingLog { exit_code: 1 },
        Session::Running,
        Session::Done,
    ];
    for state in states {
        let (next, action) = state.step(Event::Missing);
        assert_eq!(action, Action::Fail(EngineError::OutOfTurn));
        assert!(next.is_done());
    }
}

#[test]
fn each_state_answers_its_event() {
    let (next, action) = Session::Staging {
        key: "k".to_string(),
        arguments: texts(&["a"]),
        forward: true,
    }
    .step(Event::Staged);
    assert_eq!(action, Action::Build { forward: true });
    let (next, action) = next.step(Event::Built {
        output: b"out".to_vec(),
        status: Some(Termination::Other(-4)),
    });
    assert_eq!(
        action,
        Action::StoreLog {
            log: b"out".to_vec()
        }
    );
    let (next, action) = next.step(Event::LogStored {
        output_id: "id".to_string(),
    });
    assert_eq!(
        action,
        Action::Commit {
            key: "k".to_string(),
            entry: CacheEntry {
                output_id: "id".to_string(),
                exit_code: -4
            },
            with_artifact: false
        }
    );
    let (next, action) = next.step(Event::Committed);
    assert_eq!(
        action,
        Action::Exit {
            diagnostics: b"out".to_vec(),
            code: -4
        }
    );
    assert!(next.is_done());
}

#[test]
fn fetched_log_is_given_with_the_recorded_code() {
    let (next, action) = Session::FetchingLog { exit_code: 42 }.step(Event::Log(vec![1, 2, 255]));
    assert_eq!(
        action,
        Action::Exit {
            diagnostics: vec![1, 2, 255],
            code: 42
        }
    );
    assert!(next.is_done());
}

#[test]
fn undetermined_end_of_the_artifact_gives_the_sentinel() {
    let (_, action) = Session::Running.step(Event::Ran(Termination::Undetermined));
    assert_eq!(
        action,
        Action::Exit {
            diagnostics: vec![],
            code: -1
        }
    );
}
