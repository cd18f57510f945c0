use std::io::{Error, ErrorKind};
use ws_file_executor::{
    ExecParams, Phase, ProdServices, Report, RunAction, RunEvent, Script, ServiceError,
};

fn lines(text: &[&str]) -> Vec<String> {
    text.iter().map(|line| (*line).to_owned()).collect()
}

/// A process that writes `text` and exits with `code`, in front of a sink
/// that stays open.
fn script(text: &[&str], code: i32) -> Script {
    Script {
        spawn_error: None,
        lines: lines(text),
        sink_closes_after: None,
        wait_error: None,
        exit_code: Some(code),
        cleanup_fails: false,
    }
}

/// What the receiving end makes of the lines it got.
fn output(report: &Report) -> String {
    let mut output = String::new();
    for line in &report.delivered {
        output.push_str(&format!("{line}\n"));
    }
    output
}

#[test]
fn test_register_file() {
    let mut services = ProdServices::new("test-stage/uploads".to_owned());
    let id = ".id123";
    let uploaded_path = "ignore/me";
    assert_eq!(
        services.stored_path(id, uploaded_path),
        format!("test-stage/uploads/{id}/{uploaded_path}")
    );
    services.register_file(id, uploaded_path, true).unwrap();
    let file = services.get_file(id).unwrap();
    assert_eq!(file, format!("test-stage/uploads/{id}/{uploaded_path}"));
}

#[test]
fn test_execute_cmd() {
    let mut services = ProdServices::with_init_files(
        "test-stage/uploads".to_owned(),
        vec![(
            ".id345".to_owned(),
            "test-stage/uploads/.id345/mock-path/mock-script.sh".to_owned(),
        )],
    );

    let report = services.run_scripted(".id345", "sh", script(&["Sleep for 2", "Done"], 0));
    report.outcome.as_ref().unwrap();

    assert_eq!(output(&report), "Sleep for 2\nDone\n");
    assert_eq!(
        report.spawned,
        Some((
            "sh".to_owned(),
            "test-stage/uploads/.id345/mock-path/mock-script.sh".to_owned()
        ))
    );
    assert_eq!(report.removed, ["test-stage/uploads/.id345"]);
}

#[test]
fn test_execute_bogus_cmd() {
    let mut services = ProdServices::with_init_files(
        "test-stage/uploads".to_owned(),
        vec![(".id456".to_owned(), "bogus_file".to_owned())],
    );

    let report = services.run_scripted(
        ".id456",
        "bogus-cmd",
        Script { spawn_error: Some(Error::from(ErrorKind::NotFound)), ..script(&[], 0) },
    );
    match report.outcome {
        Err(ServiceError::SpawnError(_)) => (),
        _ => panic!("Expected SpawnError"),
    }
}

#[test]
fn test_execute_on_bogus_file() {
    let mut services = ProdServices::with_init_files(
        "test-stage/uploads".to_owned(),
        vec![(".id567".to_owned(), "bogus_file".to_owned())],
    );

    let report = services.run_scripted(
        ".id456",
        "test-stage/uploads/.id567/evil/die-script.sh",
        script(&[], 66),
    );
    match report.outcome {
        Err(ServiceError::UploadedFileNotFound { id }) if id == ".id456".to_owned() => (),
        _ => panic!("Expected SpawnError"),
    }
    assert_eq!(services.get_file(".id567"), Some("bogus_file".to_owned()));
}

/// Many handles registered and run in turn, four scripts among them.
#[test]
fn test_parallel_roundtrips() {
    let mut services = ProdServices::new("test-stage/uploads".to_owned());
    let roundtrip = |i: u32| -> Vec<String> {
        match i {
            1 => lines(&["1.1 Sleep for 1", "1.2 Sleep for 1", "1.3 Sleep for 1", "1.4 Done"]),
            2 => lines(&["2.1 Sleep for 2", "2.2 Sleep for 1", "2.3 Done"]),
            3 => lines(&["3.1 Sleep for 1", "3.2 Sleep for 2", "3.3 Done"]),
            4 => lines(&["4.1 Sleep for 3", "4.2 Done"]),
            _ => panic!("Unexpected i: {}", i),
        }
    };

    let mut registered = vec![];
    for i in 0..100 {
        let i: u32 = i % 4 + 1;
        let id = uuid::Uuid::new_v4().to_string();
        services.register_file(&id, "scripts", true).unwrap();
        registered.push((i, id));
    }

    let mut all_results = vec![];
    for (i, id) in registered.iter().rev() {
        let report = services.run_scripted(
            id,
            "sh",
            Script {
                spawn_error: None,
                lines: roundtrip(*i),
                sink_closes_after: Some(1024),
                wait_error: None,
                exit_code: Some(0),
                cleanup_fails: false,
            },
        );
        all_results.push((*i, id.clone(), report));
    }

    for (i, id, report) in all_results {
        assert!(matches!(report.outcome, Ok(())));
        let exp_output = match i {
            1 => "1.1 Sleep for 1\n1.2 Sleep for 1\n1.3 Sleep for 1\n1.4 Done\n",
            2 => "2.1 Sleep for 2\n2.2 Sleep for 1\n2.3 Done\n",
            3 => "3.1 Sleep for 1\n3.2 Sleep for 2\n3.3 Done\n",
            4 => "4.1 Sleep for 3\n4.2 Done\n",
            _ => panic!("Unexpected i: {}", i),
        };
        assert_eq!(exp_output, output(&report));
        assert_eq!(
            report.spawned,
            Some(("sh".to_owned(), format!("test-stage/uploads/{id}/scripts")))
        );
        assert_eq!(report.removed, [format!("test-stage/uploads/{id}")]);
        assert_eq!(services.get_file(&id), None);
    }
}

#[test]
fn new_service_has_nothing_registered() {
    let services = ProdServices::new("uploads".to_owned());
    assert_eq!(services.uploads_dir(), "uploads");
    assert_eq!(services.get_file("h1"), None);
}

#[test]
fn with_init_files_keeps_the_later_of_two_entries() {
    let services = ProdServices::with_init_files(
        "uploads".to_owned(),
        vec![
            ("h1".to_owned(), "first".to_owned()),
            ("h1".to_owned(), "second".to_owned()),
        ],
    );
    assert_eq!(services.uploads_dir(), "uploads");
    assert_eq!(services.get_file("h1"), Some("second".to_owned()));
}

#[test]
fn failed_save_registers_nothing_and_names_handle_and_path() {
    let mut services = ProdServices::new("uploads".to_owned());
    match services.register_file("h1", "scripts/x.sh", false) {
        Err(ServiceError::FileSaveError { id, path }) => {
            assert_eq!(id, "h1");
            assert_eq!(path, "uploads/h1/scripts/x.sh");
        }
        other => panic!("expected FileSaveError, got {other:?}"),
    }
    assert_eq!(services.get_file("h1"), None);
}

#[test]
fn failed_save_leaves_an_earlier_registration() {
    let mut services = ProdServices::new("uploads".to_owned());
    services.register_file("h1", "a.sh", true).unwrap();
    assert!(services.register_file("h1", "b.sh", false).is_err());
    assert_eq!(services.get_file("h1"), Some("uploads/h1/a.sh".to_owned()));
}

#[test]
fn registering_again_overwrites() {
    let mut services = ProdServices::new("uploads".to_owned());
    services.register_file("h1", "a.sh", true).unwrap();
    services.register_file("h1", "b.sh", true).unwrap();
    assert_eq!(services.get_file("h1"), Some("uploads/h1/b.sh".to_owned()));
}

#[test]
fn run_cmd_asks_for_the_command_on_the_stored_path() {
    let mut services = ProdServices::new("uploads".to_owned());
    services.register_file("h1", "scripts/x.sh", true).unwrap();
    let (attempt, action) = services.run_cmd("h1", "sh");
    assert!(matches!(
        action,
        RunAction::Spawn { ref program, ref argument }
            if program == "sh" && argument == "uploads/h1/scripts/x.sh"
    ));
    assert_eq!(attempt.phase(), Phase::Spawning);
    assert_eq!(attempt.dir(), "uploads/h1");
    assert_eq!(services.get_file("h1"), None);
}

#[test]
fn run_cmd_of_an_unknown_handle_is_over_at_once() {
    let mut services = ProdServices::new("uploads".to_owned());
    services.register_file("h1", "x.sh", true).unwrap();
    let (attempt, action) = services.run_cmd("bogus-handle", "sh");
    assert!(matches!(
        action,
        RunAction::Finish(Err(ServiceError::UploadedFileNotFound { ref id })) if id == "bogus-handle"
    ));
    assert!(attempt.is_done());
    assert_eq!(services.get_file("h1"), Some("uploads/h1/x.sh".to_owned()));
}

#[test]
fn second_run_is_not_found_while_the_first_is_in_flight() {
    let mut services = ProdServices::new("uploads".to_owned());
    services.register_file("h1", "x.sh", true).unwrap();
    let (mut first, action) = services.run_cmd("h1", "sh");
    assert!(matches!(action, RunAction::Spawn { .. }));
    assert!(matches!(first.step(RunEvent::Spawned), RunAction::ReadLine));

    let (second, action) = services.run_cmd("h1", "sh");
    assert!(matches!(
        action,
        RunAction::Finish(Err(ServiceError::UploadedFileNotFound { ref id })) if id == "h1"
    ));
    assert!(second.is_done());

    assert!(matches!(first.step(RunEvent::EndOfOutput), RunAction::Wait));
    assert!(matches!(first.step(RunEvent::Exited(Some(0))), RunAction::RemoveDir(_)));
    assert!(matches!(
        first.step(RunEvent::CleanedUp { removed: true }),
        RunAction::Finish(Ok(()))
    ));
}

#[test]
fn attempts_of_different_handles_do_not_mix() {
    let mut services = ProdServices::new("uploads".to_owned());
    services.register_file("h1", "one.sh", true).unwrap();
    services.register_file("h2", "two.sh", true).unwrap();
    let (mut one, _) = services.run_cmd("h1", "sh");
    let (mut two, _) = services.run_cmd("h2", "sh");
    one.step(RunEvent::Spawned);
    two.step(RunEvent::Spawned);
    let a = one.step(RunEvent::Line("from one".to_owned()));
    let b = two.step(RunEvent::Line("from two".to_owned()));
    assert!(matches!(a, RunAction::Deliver(ref line) if line == "from one"));
    assert!(matches!(b, RunAction::Deliver(ref line) if line == "from two"));
    two.step(RunEvent::SinkClosed);
    one.step(RunEvent::Delivered);
    one.step(RunEvent::EndOfOutput);
    let a = one.step(RunEvent::Exited(Some(0)));
    let b = two.step(RunEvent::Exited(Some(0)));
    assert!(matches!(a, RunAction::RemoveDir(ref dir) if dir == "uploads/h1"));
    assert!(matches!(b, RunAction::RemoveDir(ref dir) if dir == "uploads/h2"));
    assert!(matches!(
        one.step(RunEvent::CleanedUp { removed: true }),
        RunAction::Finish(Ok(()))
    ));
    assert!(matches!(
        two.step(RunEvent::CleanedUp { removed: true }),
        RunAction::Finish(Err(ServiceError::StreamError))
    ));
}

#[test]
fn exec_params_keep_handle_and_command() {
    let params = ExecParams::new("h1".to_owned(), "sh".to_owned());
    assert_eq!(params.id(), "h1");
    assert_eq!(params.cmd(), "sh");
}
