use playbook::action::{Action, Event, Fault, ParamSnapshot, Phase};
use playbook::config_process::Role;
use playbook::error::{PlaybookError, ProcessError, TemplateError};
use playbook::interpreter::Identity;
use playbook::participant::Participant;
use playbook::runtime::{get, Caller, PlaybookRuntime, RuntimeFunc};

fn participant(user: &str, role: &str) -> Participant {
    Participant { user_id: user.to_string(), role: role.to_string() }
}

fn caller() -> Caller {
    Caller {
        identity: Identity {
            user_id: "alice".to_string(),
            task_id: "T1".to_string(),
            core_addr: "http://core:80".to_string(),
            jwt: "SECRET-REDACTED".to_string(),
        },
        env: vec![("HOME".to_string(), "/home/alice".to_string())],
        participants: vec![
            participant("alice", "initiator"),
            participant("bob", "receiver"),
            participant("carol", "receiver"),
        ],
    }
}

fn step(pairs: &[(&str, &str)]) -> Vec<(String, String)> {
    pairs.iter().map(|(k, v)| (k.to_string(), v.to_string())).collect()
}

fn runtime(steps: Vec<Vec<(String, String)>>) -> PlaybookRuntime {
    PlaybookRuntime {
        role: Role {
            name: "initiator".to_string(),
            max_num: 1,
            min_num: 1,
            steps,
            workdir: "work/{{task_id}}/".to_string(),
        },
        func: RuntimeFunc::new("work/{{task_id}}/".to_string()),
    }
}

fn begun(steps: Vec<Vec<(String, String)>>) -> (PlaybookRuntime, Result<Action, PlaybookError>) {
    let mut rt = runtime(steps);
    let first = rt.start(&caller(), &b"hello".to_vec());
    assert!(matches!(first, Ok(Action::Prepare { .. })));
    let next = rt.advance(&caller(), Event::Completed);
    (rt, next)
}

fn exited(code: i32) -> Event {
    Event::Exited { code: Some(code), signal: None }
}

#[test]
fn the_runtime_starts_with_the_snapshot() {
    let mut rt = runtime(vec![]);
    assert_eq!(
        rt.start(&caller(), &b"hello".to_vec()),
        Ok(Action::Prepare {
            working_dir: "work/T1/".to_string(),
            file: "param.json".to_string(),
            snapshot: ParamSnapshot {
                param: "aGVsbG8=".to_string(),
                participants: vec![
                    ("alice".to_string(), "initiator".to_string()),
                    ("bob".to_string(), "receiver".to_string()),
                    ("carol".to_string(), "receiver".to_string()),
                ],
                user_id: "alice".to_string(),
                task_id: "T1".to_string(),
            },
        })
    );
    assert_eq!(rt.func.phase(), Phase::Preparing);
    assert_eq!(rt.advance(&caller(), Event::Completed), Ok(Action::Finished));
    assert_eq!(rt.func.phase(), Phase::Finished);
}

#[test]
fn the_runtime_counts_the_role_before_any_step() {
    let mut rt = runtime(vec![step(&[("delete_entry", "k")])]);
    rt.role.min_num = 2;
    rt.role.max_num = 5;
    assert_eq!(rt.start(&caller(), &Vec::new()), Err(PlaybookError::ParticipantCount));
    assert_eq!(rt.func.phase(), Phase::Failed);
    assert_eq!(rt.advance(&caller(), Event::Completed), Err(PlaybookError::UnexpectedEvent));
    assert_eq!(rt.func.cursor(), 0);

    let func = RuntimeFunc::new("w".to_string());
    let people = caller().participants;
    assert_eq!(func.check_roles_num(&people, "receiver", 2, 2), Ok(()));
    assert_eq!(func.check_roles_num(&people, "receiver", 1, 0), Err(PlaybookError::ParticipantCount));
    assert_eq!(func.check_roles_num(&people, "receiver", 9, 3), Err(PlaybookError::ParticipantCount));
    assert_eq!(func.check_roles_num(&people, "nobody", i64::MAX, 0), Ok(()));
    assert_eq!(func.check_roles_num(&people, "nobody", -1, -5), Err(PlaybookError::ParticipantCount));
}

#[test]
fn a_variable_that_is_not_set_stays_in_a_path() {
    let c = caller();
    assert_eq!(
        RuntimeFunc::replace_path_value(&c, "$HOME/{{user_id}}/{{task_id[1..]}}"),
        Ok("/home/alice/alice/1".to_string())
    );
    assert_eq!(
        RuntimeFunc::replace_path_value(&c, "{{task_id}}/$PB_NONE"),
        Ok("T1/$PB_NONE".to_string())
    );
    assert_eq!(RuntimeFunc::replace_path_value(&c, "$NOPE/x"), Ok("$NOPE/x".to_string()));
    assert_eq!(
        RuntimeFunc::replace_path_value(&c, "{{other}}"),
        Err(TemplateError::UndefinedBinding)
    );
    assert_eq!(
        RuntimeFunc::replace_path_value(&c, "docker inspect -f '{{.State.Running}}' {{task_id}}"),
        Ok("docker inspect -f '{{.State.Running}}' T1".to_string())
    );
    assert_eq!(
        RuntimeFunc::replace_path_value(&c, "{{task_id[5..]}}"),
        Err(TemplateError::OutOfBounds)
    );
}

#[test]
fn participants_of_a_role_are_selected() {
    assert_eq!(
        RuntimeFunc::get_role_participants(&caller().participants, "receiver".to_string()),
        vec![participant("bob", "receiver"), participant("carol", "receiver")]
    );
}

#[test]
fn fields_of_a_flat_step_are_found_by_key() {
    let st = step(&[("a", "1"), ("b", "2"), ("a", "3")]);
    assert_eq!(get(&st, "a"), Some(&"1".to_string()));
    assert_eq!(get(&st, "b"), Some(&"2".to_string()));
    assert_eq!(get(&st, "c"), None);
}

fn spawn_env() -> Vec<(String, String)> {
    vec![
        ("COLINK_CORE_ADDR".to_string(), "http://core:80".to_string()),
        ("COLINK_JWT".to_string(), "SECRET-REDACTED".to_string()),
    ]
}

#[test]
fn a_flat_guard_that_fails_skips_the_step() {
    let steps = vec![
        step(&[("if", "test -f x"), ("step_name", "s"), ("process", "touch y")]),
        step(&[("delete_entry", "k-{{task_id}}")]),
    ];
    let (mut rt, first) = begun(steps);
    assert_eq!(
        first,
        Ok(Action::Run {
            command: "test -f x".to_string(),
            working_dir: "work/T1/".to_string(),
            env: spawn_env(),
        })
    );
    assert_eq!(
        rt.advance(&caller(), exited(1)),
        Ok(Action::DeleteEntry { key: "k-T1".to_string() })
    );
    assert!(!rt.func.is_registered("s"));
    assert_eq!(rt.func.cursor(), 1);
}

#[test]
fn a_flat_process_is_held_against_the_exit_code_asked_for() {
    let steps = |check: &[(&str, &str)]| {
        let mut wait = step(&[("process_wait", "s"), ("stdout_file", "out"), ("exit_code", "rc")]);
        wait.extend(step(check));
        vec![step(&[("step_name", "s"), ("process", "work $NOPE")]), wait]
    };
    let (mut rt, first) = begun(steps(&[]));
    assert_eq!(
        first,
        Ok(Action::Launch {
            step_name: "s".to_string(),
            command: "work $NOPE".to_string(),
            working_dir: "work/T1/".to_string(),
            env: spawn_env(),
        })
    );
    assert_eq!(rt.advance(&caller(), Event::Completed), Ok(Action::Wait { step_name: "s".to_string() }));
    assert_eq!(
        rt.advance(&caller(), exited(2)),
        Ok(Action::Collect {
            step_name: "s".to_string(),
            stdout_file: Some("out".to_string()),
            stderr_file: None,
        })
    );
    assert_eq!(
        rt.advance(&caller(), Event::Completed),
        Ok(Action::WriteFile { path: "rc".to_string(), contents: "2".to_string() })
    );
    assert_eq!(rt.advance(&caller(), Event::Completed), Ok(Action::Finished));

    let run = |check: &[(&str, &str)], code: i32| {
        let (mut rt, _) = begun(steps(check));
        rt.advance(&caller(), Event::Completed).unwrap();
        rt.advance(&caller(), exited(code)).unwrap();
        rt.advance(&caller(), Event::Completed).unwrap();
        let last = rt.advance(&caller(), Event::Completed);
        (rt.func.phase(), last)
    };
    assert_eq!(run(&[("check_exit_code", "2")], 2), (Phase::Finished, Ok(Action::Finished)));
    assert_eq!(run(&[("check_exit_code", "-1")], -1), (Phase::Finished, Ok(Action::Finished)));
    assert_eq!(
        run(&[("check_exit_code", "0")], 1),
        (
            Phase::Failed,
            Err(PlaybookError::Process(ProcessError::ExitCode { expected: 0, observed: 1 }))
        )
    );
    assert_eq!(run(&[("check_exit_code", "zero")], 0), (Phase::Failed, Err(PlaybookError::Config)));

    let (mut rt, _) = begun(steps(&[]));
    rt.advance(&caller(), Event::Completed).unwrap();
    assert_eq!(
        rt.advance(&caller(), Event::Exited { code: None, signal: None }),
        Err(PlaybookError::Process(ProcessError::Failed))
    );
}

#[test]
fn a_flat_kill_is_followed_by_a_wait_and_ends_the_step() {
    let steps = vec![
        step(&[("step_name", "s"), ("process", "serve")]),
        step(&[("process_kill", "s"), ("stderr_file", "$HOME/err"), ("exit_code", "rc")]),
        step(&[("delete_entry", "k")]),
    ];
    let (mut rt, _) = begun(steps);
    assert_eq!(rt.advance(&caller(), Event::Completed), Ok(Action::Kill { step_name: "s".to_string() }));
    assert!(rt.func.is_registered("s"));
    assert_eq!(rt.advance(&caller(), Event::Completed), Ok(Action::Wait { step_name: "s".to_string() }));
    assert!(!rt.func.is_registered("s"));
    assert_eq!(
        rt.advance(&caller(), Event::Exited { code: None, signal: Some(15) }),
        Ok(Action::Collect {
            step_name: "s".to_string(),
            stdout_file: None,
            stderr_file: Some("/home/alice/err".to_string()),
        })
    );
    assert_eq!(
        rt.advance(&caller(), Event::Completed),
        Ok(Action::WriteFile { path: "rc".to_string(), contents: "15".to_string() })
    );
    assert_eq!(
        rt.advance(&caller(), Event::Completed),
        Ok(Action::DeleteEntry { key: "k".to_string() })
    );
    assert_eq!(rt.advance(&caller(), Event::Completed), Ok(Action::Finished));
}

#[test]
fn flat_variables_go_to_the_role_or_to_one_of_it() {
    let send = [("send_variable", "x-{{task_id}}"), ("file", "$HOME/x"), ("to_role", "receiver")];
    let with = |more: &[(&str, &str)]| {
        let mut st = step(&send);
        st.extend(step(more));
        begun(vec![st]).1
    };
    let sent = |participants: Vec<Participant>| {
        Ok(Action::SendVariable {
            name: "x-T1".to_string(),
            file: "/home/alice/x".to_string(),
            participants,
        })
    };
    assert_eq!(with(&[]), sent(vec![participant("bob", "receiver"), participant("carol", "receiver")]));
    assert_eq!(with(&[("index", "1")]), sent(vec![participant("carol", "receiver")]));
    assert_eq!(with(&[("index", "2")]), Err(PlaybookError::Config));
    assert_eq!(with(&[("index", "-1")]), Err(PlaybookError::Config));
    assert_eq!(with(&[("index", "one")]), Err(PlaybookError::Config));
    let (_, first) = begun(vec![step(&[("send_variable", "x"), ("file", "f")])]);
    assert_eq!(first, Err(PlaybookError::Config));
    let (_, first) = begun(vec![step(&[("send_variable", "{{x}}"), ("file", "f"), ("to_role", "r")])]);
    assert_eq!(first, Err(PlaybookError::Template(TemplateError::UndefinedBinding)));
}

#[test]
fn flat_variables_come_from_the_sender_at_the_index() {
    let recv = |more: &[(&str, &str)]| {
        let mut st = step(&[("recv_variable", "x-{{user_id}}")]);
        st.extend(step(more));
        begun(vec![st]).1
    };
    let asked = |user: &str| {
        Ok(Action::RecvVariable { name: "x-alice".to_string(), participant: participant(user, "receiver") })
    };
    assert_eq!(recv(&[("from_role", "receiver"), ("index", "0")]), asked("bob"));
    assert_eq!(recv(&[("from_role", "receiver"), ("index", "1")]), asked("carol"));
    assert_eq!(recv(&[("from_role", "receiver"), ("index", "2")]), Err(PlaybookError::Config));
    assert_eq!(recv(&[("from_role", "receiver")]), Err(PlaybookError::Config));
    assert_eq!(recv(&[("index", "0")]), Err(PlaybookError::Config));
    assert_eq!(recv(&[("from_role", "nobody"), ("index", "0")]), Err(PlaybookError::Config));
}

#[test]
fn flat_entry_operations_resolve_key_and_file() {
    let k = "k/T1".to_string();
    let f = "/home/alice/f".to_string();
    let (_, first) = begun(vec![step(&[("create_entry", "k/{{task_id}}"), ("file", "$HOME/f")])]);
    assert_eq!(first, Ok(Action::CreateEntry { key: k.clone(), file: f.clone() }));
    let (_, first) = begun(vec![step(&[("update_entry", "k/{{task_id}}"), ("file", "$HOME/f")])]);
    assert_eq!(first, Ok(Action::UpdateEntry { key: k.clone(), file: f.clone() }));
    let (_, first) = begun(vec![step(&[("read_entry", "k/{{task_id}}"), ("file", "$HOME/f")])]);
    assert_eq!(first, Ok(Action::ReadEntry { key: k.clone(), file: f.clone() }));
    let (_, first) =
        begun(vec![step(&[("read_or_wait_entry", "k/{{task_id}}"), ("file", "$HOME/f")])]);
    assert_eq!(first, Ok(Action::ReadOrWaitEntry { key: k.clone(), file: f.clone() }));
    let (mut rt, first) = begun(vec![step(&[("delete_entry", "k/{{task_id}}")])]);
    assert_eq!(first, Ok(Action::DeleteEntry { key: k }));
    assert_eq!(rt.advance(&caller(), Event::Failed(Fault::Service)), Err(PlaybookError::Coordination));
    let (_, first) = begun(vec![step(&[("create_entry", "k")])]);
    assert_eq!(first, Err(PlaybookError::Config));
    let (_, first) = begun(vec![step(&[("read_entry", "k"), ("file", "$NOPE")])]);
    assert_eq!(first, Ok(Action::ReadEntry { key: "k".to_string(), file: "$NOPE".to_string() }));
    let (_, first) = begun(vec![step(&[("read_entry", "k"), ("file", "{{nope}}")])]);
    assert_eq!(first, Err(PlaybookError::Template(TemplateError::UndefinedBinding)));
    let (_, first) = begun(vec![step(&[("delete_entry", "d"), ("update_entry", "u"), ("file", "f")])]);
    assert_eq!(first, Ok(Action::UpdateEntry { key: "u".to_string(), file: "f".to_string() }));
}

#[test]
fn flat_payloads_are_stored_as_they_were_received() {
    let (mut rt, first) = begun(vec![step(&[("read_entry", "k"), ("file", "$HOME/{{task_id}}")])]);
    assert_eq!(
        first,
        Ok(Action::ReadEntry { key: "k".to_string(), file: "/home/alice/T1".to_string() })
    );
    assert_eq!(rt.func.phase(), Phase::Receiving);
    assert_eq!(
        rt.advance(&caller(), Event::Received(vec![7, 0, 7])),
        Ok(Action::WritePayload { path: "/home/alice/T1".to_string(), payload: vec![7, 0, 7] })
    );
    assert_eq!(rt.advance(&caller(), Event::Completed), Ok(Action::Finished));

    let (mut rt, _) = begun(vec![step(&[
        ("recv_variable", "x"),
        ("from_role", "receiver"),
        ("index", "0"),
        ("file", "in"),
    ])]);
    assert_eq!(
        rt.advance(&caller(), Event::Received(vec![1])),
        Ok(Action::WritePayload { path: "in".to_string(), payload: vec![1] })
    );
    let (mut rt, _) =
        begun(vec![step(&[("recv_variable", "x"), ("from_role", "receiver"), ("index", "1")])]);
    assert_eq!(rt.advance(&caller(), Event::Received(vec![1])), Ok(Action::Finished));
}

#[test]
fn flat_steps_without_an_action_are_refused() {
    let (_, first) = begun(vec![step(&[("file", "f")])]);
    assert_eq!(first, Err(PlaybookError::UnrecognizedStep));
    let (_, first) = begun(vec![step(&[("process", "ls")])]);
    assert_eq!(first, Err(PlaybookError::Config));
    let (_, first) = begun(vec![step(&[("process_wait", "ghost")])]);
    assert_eq!(first, Err(PlaybookError::Process(ProcessError::NotRegistered)));
}

#[test]
fn single_steps_can_be_driven_by_hand() {
    let mut func = RuntimeFunc::new("w".to_string());
    let st = step(&[("step_name", "s"), ("process", "ls")]);
    assert!(matches!(func.decide_and_call(&caller(), &st), Ok(Some(Action::Launch { .. }))));
    assert_eq!(func.phase(), Phase::Launching);
    assert_eq!(func.resume(&caller(), &st, Event::Completed), Ok(None));
    assert_eq!(func.phase(), Phase::Idle);
    assert!(func.is_registered("s"));
    assert_eq!(
        func.decide_and_call(&caller(), &st),
        Err(PlaybookError::Process(ProcessError::AlreadyRegistered))
    );
    assert_eq!(func.store_param(&caller(), &vec![1, 2, 3]).param, "AQID");
}
