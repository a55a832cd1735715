use daemon::backend::{Action, Backend, Event, Phase, Reply};
use daemon::command::{Command, Output};
use daemon::error::{Error, ErrorKind};

fn strings(list: &[&str]) -> Vec<String> {
    list.iter().map(|s| s.to_string()).collect()
}

fn output(success: bool, status: &str, stdout: &[u8], stderr: &[u8]) -> Output {
    Output {
        success,
        status: status.to_string(),
        stdout: stdout.to_vec(),
        stderr: stderr.to_vec(),
    }
}

fn build() -> Action {
    Action::Run(Command {
        program: "mvn".to_string(),
        args: strings(&["install"]),
        dir: Some("/srv/app".to_string()),
    })
}

fn kill(pid: &str) -> Action {
    Action::Run(Command {
        program: "kill".to_string(),
        args: strings(&[pid]),
        dir: None,
    })
}

fn failure(kind: ErrorKind, message: &str) -> Action {
    Action::Done(Err(Error {
        kind,
        message: message.to_string(),
    }))
}

/// A supervisor whose worker, process 4242, has just been started.
fn running() -> Backend {
    let mut backend = Backend::new("/srv/app".to_string());
    assert_eq!(backend.start(), build());
    assert_eq!(
        backend.advance(Event::Ran(Ok(output(true, "exit status: 0", b"BUILD SUCCESS\n", b"")))),
        Action::List("/srv/app/target".to_string())
    );
    assert_eq!(
        backend.advance(Event::Listed(Ok(strings(&["classes", "app.jar"])))),
        Action::Resolve("/srv/app/target/app.jar".to_string())
    );
    assert_eq!(
        backend.advance(Event::Resolved(Ok("/srv/app/target/app.jar".to_string()))),
        Action::Spawn(Command {
            program: "java".to_string(),
            args: strings(&["-jar", "/srv/app/target/app.jar"]),
            dir: None,
        })
    );
    assert_eq!(
        backend.advance(Event::Spawned(Ok(4242))),
        Action::Done(Ok(Reply::Started))
    );
    backend
}

#[test]
fn a_new_supervisor_is_stopped_and_idle() {
    let backend = Backend::new("/srv/app".to_string());
    assert!(!backend.running());
    assert_eq!(backend.path(), "/srv/app");
    assert_eq!(backend.phase(), Phase::Idle);
    assert_eq!(backend.pid(), None);
}

#[test]
fn start_builds_locates_resolves_and_spawns() {
    let backend = running();
    assert!(backend.running());
    assert_eq!(backend.pid(), Some(4242));
    assert_eq!(backend.phase(), Phase::Idle);
    assert_eq!(backend.path(), "/srv/app");
}

#[test]
fn the_phases_of_a_start() {
    let mut backend = Backend::new("/srv/app".to_string());
    backend.start();
    assert_eq!(backend.phase(), Phase::Building);
    backend.advance(Event::Ran(Ok(output(true, "exit status: 0", b"", b""))));
    assert_eq!(backend.phase(), Phase::Locating);
    backend.advance(Event::Listed(Ok(strings(&["app.jar"]))));
    assert_eq!(backend.phase(), Phase::Resolving);
    backend.advance(Event::Resolved(Ok("/real/app.jar".to_string())));
    assert_eq!(backend.phase(), Phase::Spawning);
    assert!(!backend.running());
    backend.advance(Event::Spawned(Ok(7)));
    assert_eq!(backend.phase(), Phase::Idle);
    assert!(backend.running());
}

#[test]
fn the_resolved_path_is_what_is_run() {
    let mut backend = Backend::new("/srv/app".to_string());
    backend.start();
    backend.advance(Event::Ran(Ok(output(true, "exit status: 0", b"", b""))));
    backend.advance(Event::Listed(Ok(strings(&["app.jar"]))));
    assert_eq!(
        backend.advance(Event::Resolved(Ok("/mnt/real/app.jar".to_string()))),
        Action::Spawn(Command {
            program: "java".to_string(),
            args: strings(&["-jar", "/mnt/real/app.jar"]),
            dir: None,
        })
    );
}

#[test]
fn start_twice_spawns_once() {
    let mut backend = running();
    assert_eq!(backend.start(), Action::Done(Ok(Reply::AlreadyRunning)));
    assert!(backend.running());
    assert_eq!(backend.pid(), Some(4242));
    assert_eq!(backend.phase(), Phase::Idle);
    assert_eq!(backend.start(), Action::Done(Ok(Reply::AlreadyRunning)));
    assert_eq!(backend.pid(), Some(4242));
}

#[test]
fn a_stray_spawn_outcome_does_not_replace_the_worker() {
    let mut backend = running();
    assert_eq!(
        backend.advance(Event::Spawned(Ok(9999))),
        failure(
            ErrorKind::StateRecovered,
            "Unexpected event; the operation in progress was abandoned"
        )
    );
    assert_eq!(backend.pid(), Some(4242));
}

#[test]
fn stop_when_stopped_is_a_no_op() {
    let mut backend = Backend::new("/srv/app".to_string());
    assert_eq!(backend.stop(), Action::Done(Ok(Reply::NotRunning)));
    assert!(!backend.running());
    assert_eq!(backend.phase(), Phase::Idle);
    assert_eq!(backend.path(), "/srv/app");
    assert_eq!(backend.stop(), Action::Done(Ok(Reply::NotRunning)));
    assert_eq!(Reply::NotRunning.text(), "Backend is not running");
}

#[test]
fn stop_after_start_ends_the_worker() {
    let mut backend = running();
    assert_eq!(backend.stop(), kill("4242"));
    assert_eq!(backend.phase(), Phase::Killing { restart: false });
    assert!(backend.running());
    assert_eq!(
        backend.advance(Event::Ran(Ok(output(true, "exit status: 0", b"", b"")))),
        Action::Wait
    );
    assert_eq!(backend.phase(), Phase::Waiting { restart: false });
    assert_eq!(
        backend.advance(Event::Exited(Ok(output(
            false,
            "signal: 15 (SIGTERM)",
            b"bye\n",
            b"warn\n"
        )))),
        Action::Done(Ok(Reply::Stopped(
            "Backend stopped with status: signal: 15 (SIGTERM)\nstdout: \nbye\n\nstderr:\n warn\n\n"
                .to_string()
        )))
    );
    assert!(!backend.running());
    assert_eq!(backend.pid(), None);
    assert_eq!(backend.phase(), Phase::Idle);
    assert_eq!(backend.stdout(), Action::Done(Ok(Reply::NotRunning)));
    assert_eq!(backend.stderr(), Action::Done(Ok(Reply::NotRunning)));
}

#[test]
fn the_stop_report_holds_everything_the_worker_printed() {
    let mut backend = running();
    backend.stdout();
    assert_eq!(
        backend.advance(Event::Read(Ok(b"one\n".to_vec()))),
        Action::Done(Ok(Reply::Stdout("one\n".to_string())))
    );
    backend.stop();
    backend.advance(Event::Ran(Ok(output(true, "exit status: 0", b"", b""))));
    assert_eq!(
        backend.advance(Event::Exited(Ok(output(true, "exit status: 0", b"two\n", b"")))),
        Action::Done(Ok(Reply::Stopped(
            "Backend stopped with status: exit status: 0\nstdout: \none\ntwo\n\nstderr:\n \n"
                .to_string()
        )))
    );
}

#[test]
fn the_kill_request_need_not_succeed_for_the_wait_to_follow() {
    let mut backend = running();
    backend.stop();
    assert_eq!(
        backend.advance(Event::Ran(Ok(output(
            false,
            "exit status: 1",
            b"",
            b"kill: (4242) - No such process\n"
        )))),
        Action::Wait
    );
}

#[test]
fn start_with_a_failing_build_reports_build_failed() {
    let mut backend = Backend::new("/srv/app".to_string());
    assert_eq!(backend.start(), build());
    let action = backend.advance(Event::Ran(Ok(output(
        false,
        "exit status: 1",
        b"[INFO] Scanning for projects...\n",
        b"[ERROR] there is no POM in this directory\n",
    ))));
    assert_eq!(
        action,
        failure(
            ErrorKind::BuildFailed,
            "maven install status: exit status: 1\nmaven install stdout: \n[INFO] Scanning for projects...\nmaven install stderr: \n[ERROR] there is no POM in this directory\n\n"
        )
    );
    match action {
        Action::Done(Err(error)) => {
            assert_eq!(error.kind(), ErrorKind::BuildFailed);
            assert!(!error.to_text().is_empty());
            assert!(error.to_text().contains("[ERROR] there is no POM in this directory"));
        }
        other => panic!("unexpected action {:?}", other),
    }
    assert!(!backend.running());
    assert_eq!(backend.phase(), Phase::Idle);
}

#[test]
fn a_build_that_cannot_be_run_reports_build_failed() {
    let mut backend = Backend::new("/srv/app".to_string());
    backend.start();
    assert_eq!(
        backend.advance(Event::Ran(Err("No such file or directory (os error 2)".to_string()))),
        failure(ErrorKind::BuildFailed, "No such file or directory (os error 2)")
    );
    assert!(!backend.running());
}

#[test]
fn a_build_report_with_empty_output_is_not_empty() {
    let mut backend = Backend::new("/srv/app".to_string());
    backend.start();
    assert_eq!(
        backend.advance(Event::Ran(Ok(output(false, "", b"", b"")))),
        failure(
            ErrorKind::BuildFailed,
            "maven install status: \nmaven install stdout: \nmaven install stderr: \n\n"
        )
    );
}

#[test]
fn no_artifact_reports_artifact_not_found() {
    let mut backend = Backend::new("/srv/app".to_string());
    backend.start();
    backend.advance(Event::Ran(Ok(output(true, "exit status: 0", b"", b""))));
    assert_eq!(
        backend.advance(Event::Listed(Ok(strings(&["classes", "notes.txt"])))),
        failure(ErrorKind::ArtifactNotFound, "No jar found")
    );
    assert!(!backend.running());
    assert_eq!(backend.phase(), Phase::Idle);
}

#[test]
fn an_unreadable_output_directory_reports_artifact_not_found() {
    let mut backend = Backend::new("/srv/app".to_string());
    backend.start();
    backend.advance(Event::Ran(Ok(output(true, "exit status: 0", b"", b""))));
    assert_eq!(
        backend.advance(Event::Listed(Err("Permission denied (os error 13)".to_string()))),
        failure(ErrorKind::ArtifactNotFound, "Permission denied (os error 13)")
    );
}

#[test]
fn an_artifact_that_cannot_be_resolved_reports_artifact_not_found() {
    let mut backend = Backend::new("/srv/app".to_string());
    backend.start();
    backend.advance(Event::Ran(Ok(output(true, "exit status: 0", b"", b""))));
    backend.advance(Event::Listed(Ok(strings(&["app.jar"]))));
    assert_eq!(
        backend.advance(Event::Resolved(Err("gone".to_string()))),
        failure(ErrorKind::ArtifactNotFound, "gone")
    );
    assert!(!backend.running());
}

#[test]
fn several_artifacts_the_first_in_sorted_order_runs() {
    let mut backend = Backend::new("/srv/app".to_string());
    backend.start();
    backend.advance(Event::Ran(Ok(output(true, "exit status: 0", b"", b""))));
    assert_eq!(
        backend.advance(Event::Listed(Ok(strings(&[
            "app-2.0.jar",
            "classes",
            "app-1.0.jar",
            "app-1.0-sources.jar"
        ])))),
        Action::Resolve("/srv/app/target/app-1.0-sources.jar".to_string())
    );
}

#[test]
fn a_failed_spawn_reports_spawn_failed() {
    let mut backend = Backend::new("/srv/app".to_string());
    backend.start();
    backend.advance(Event::Ran(Ok(output(true, "exit status: 0", b"", b""))));
    backend.advance(Event::Listed(Ok(strings(&["app.jar"]))));
    backend.advance(Event::Resolved(Ok("/srv/app/target/app.jar".to_string())));
    assert_eq!(
        backend.advance(Event::Spawned(Err("java: not found".to_string()))),
        failure(ErrorKind::SpawnFailed, "java: not found")
    );
    assert!(!backend.running());
    assert_eq!(backend.phase(), Phase::Idle);
}

#[test]
fn a_start_can_be_tried_again_after_a_failure() {
    let mut backend = Backend::new("/srv/app".to_string());
    backend.start();
    backend.advance(Event::Ran(Ok(output(false, "exit status: 1", b"", b"boom"))));
    assert_eq!(backend.start(), build());
}

#[test]
fn a_kill_that_cannot_be_sent_reports_kill_failed_and_gives_the_worker_up() {
    let mut backend = running();
    backend.stop();
    assert_eq!(
        backend.advance(Event::Ran(Err("kill: not found".to_string()))),
        failure(ErrorKind::KillFailed, "kill: not found")
    );
    assert!(!backend.running());
    assert_eq!(backend.phase(), Phase::Idle);
}

#[test]
fn an_exit_that_cannot_be_confirmed_reports_kill_failed_and_gives_the_worker_up() {
    let mut backend = running();
    backend.stop();
    backend.advance(Event::Ran(Ok(output(true, "exit status: 0", b"", b""))));
    assert_eq!(
        backend.advance(Event::Exited(Err("wait failed".to_string()))),
        failure(ErrorKind::KillFailed, "wait failed")
    );
    assert!(!backend.running());
    assert_eq!(backend.phase(), Phase::Idle);
}

#[test]
fn restart_of_a_stopped_supervisor_is_a_start() {
    let mut restarted = Backend::new("/srv/app".to_string());
    let mut started = Backend::new("/srv/app".to_string());
    assert_eq!(started.stop(), Action::Done(Ok(Reply::NotRunning)));
    assert_eq!(restarted.restart(), started.start());
    assert_eq!(restarted.phase(), started.phase());
    assert_eq!(restarted.phase(), Phase::Building);
}

#[test]
fn restart_is_stop_then_start() {
    let mut backend = running();
    assert_eq!(backend.restart(), kill("4242"));
    assert_eq!(backend.phase(), Phase::Killing { restart: true });
    assert_eq!(
        backend.advance(Event::Ran(Ok(output(true, "exit status: 0", b"", b"")))),
        Action::Wait
    );
    assert_eq!(
        backend.advance(Event::Exited(Ok(output(true, "exit status: 0", b"", b"")))),
        build()
    );
    assert!(!backend.running());
    assert_eq!(backend.phase(), Phase::Building);
    backend.advance(Event::Ran(Ok(output(true, "exit status: 0", b"", b""))));
    backend.advance(Event::Listed(Ok(strings(&["app.jar"]))));
    backend.advance(Event::Resolved(Ok("/srv/app/target/app.jar".to_string())));
    assert_eq!(
        backend.advance(Event::Spawned(Ok(4243))),
        Action::Done(Ok(Reply::Started))
    );
    assert_eq!(backend.pid(), Some(4243));
}

#[test]
fn restart_whose_stop_fails_starts_nothing() {
    let mut backend = running();
    backend.restart();
    backend.advance(Event::Ran(Ok(output(true, "exit status: 0", b"", b""))));
    assert_eq!(
        backend.advance(Event::Exited(Err("wait failed".to_string()))),
        failure(ErrorKind::KillFailed, "wait failed")
    );
    assert_eq!(backend.phase(), Phase::Idle);

    let mut backend = running();
    backend.restart();
    assert_eq!(
        backend.advance(Event::Ran(Err("kill: not found".to_string()))),
        failure(ErrorKind::KillFailed, "kill: not found")
    );
    assert_eq!(backend.phase(), Phase::Idle);
}

#[test]
fn restart_and_stop_ask_for_the_same_work() {
    let mut stopping = running();
    let mut restarting = running();
    assert_eq!(stopping.stop(), restarting.restart());
    let ran = || Event::Ran(Ok(output(true, "exit status: 0", b"", b"")));
    assert_eq!(stopping.advance(ran()), restarting.advance(ran()));
    let exited = || Event::Exited(Ok(output(true, "exit status: 0", b"", b"")));
    assert!(matches!(
        stopping.advance(exited()),
        Action::Done(Ok(Reply::Stopped(_)))
    ));
    assert_eq!(restarting.advance(exited()), stopping.start());
}

#[test]
fn commit_info_runs_git_in_the_deployment_directory() {
    let mut backend = Backend::new("/srv/app".to_string());
    assert_eq!(
        backend.commit_info(),
        Action::Run(Command {
            program: "git".to_string(),
            args: strings(&["log", "-n", "1"]),
            dir: Some("/srv/app".to_string()),
        })
    );
    assert_eq!(backend.phase(), Phase::Inspecting);
    assert_eq!(
        backend.advance(Event::Ran(Ok(output(
            true,
            "exit status: 0",
            b"commit 0123abc\nAuthor: someone\n",
            b"warning: something\n"
        )))),
        Action::Done(Ok(Reply::CommitInfo {
            stdout: "commit 0123abc\nAuthor: someone\n".to_string(),
            stderr: "warning: something\n".to_string(),
        }))
    );
    assert_eq!(backend.phase(), Phase::Idle);
    assert!(!backend.running());
}

#[test]
fn commit_info_that_cannot_be_run_reports_io_failed() {
    let mut backend = running();
    backend.commit_info();
    assert_eq!(
        backend.advance(Event::Ran(Err("git: not found".to_string()))),
        failure(ErrorKind::IoFailed, "git: not found")
    );
    assert!(backend.running());
    assert_eq!(backend.pid(), Some(4242));
}

#[test]
fn commit_info_keeps_the_text_of_a_failed_query() {
    let mut backend = Backend::new("/srv/app".to_string());
    backend.commit_info();
    assert_eq!(
        backend.advance(Event::Ran(Ok(output(
            false,
            "exit status: 128",
            b"",
            b"fatal: not a git repository\n"
        )))),
        Action::Done(Ok(Reply::CommitInfo {
            stdout: String::new(),
            stderr: "fatal: not a git repository\n".to_string(),
        }))
    );
}

#[test]
fn an_outcome_nobody_asked_for_is_absorbed() {
    let mut backend = Backend::new("/srv/app".to_string());
    let unexpected = || {
        failure(
            ErrorKind::StateRecovered,
            "Unexpected event; the operation in progress was abandoned",
        )
    };
    assert_eq!(backend.advance(Event::Spawned(Ok(1))), unexpected());
    assert!(!backend.running());
    assert_eq!(backend.advance(Event::Read(Ok(vec![1, 2, 3]))), unexpected());
    assert_eq!(
        backend.advance(Event::Exited(Ok(output(true, "", b"", b"")))),
        unexpected()
    );
    backend.start();
    assert_eq!(backend.advance(Event::Listed(Ok(strings(&["app.jar"])))), unexpected());
    assert_eq!(backend.phase(), Phase::Idle);
    assert!(!backend.running());
    assert_eq!(backend.path(), "/srv/app");
}

#[test]
fn a_command_abandons_the_operation_in_flight() {
    let mut backend = Backend::new("/srv/app".to_string());
    backend.start();
    backend.advance(Event::Ran(Ok(output(true, "exit status: 0", b"", b""))));
    assert_eq!(backend.phase(), Phase::Locating);
    assert_eq!(backend.start(), build());
    assert_eq!(backend.phase(), Phase::Building);
    assert_eq!(backend.stop(), Action::Done(Ok(Reply::NotRunning)));
    assert_eq!(backend.phase(), Phase::Idle);

    let mut backend = running();
    backend.stop();
    assert_eq!(backend.start(), Action::Done(Ok(Reply::AlreadyRunning)));
    assert_eq!(backend.phase(), Phase::Idle);
    assert_eq!(backend.pid(), Some(4242));
}

#[test]
fn kill_names_the_process_in_decimal() {
    let mut backend = Backend::new("/srv/app".to_string());
    backend.start();
    backend.advance(Event::Ran(Ok(output(true, "exit status: 0", b"", b""))));
    backend.advance(Event::Listed(Ok(strings(&["app.jar"]))));
    backend.advance(Event::Resolved(Ok("/srv/app/target/app.jar".to_string())));
    backend.advance(Event::Spawned(Ok(u32::MAX)));
    assert_eq!(backend.stop(), kill("4294967295"));
}

#[test]
fn replies_in_words() {
    assert_eq!(Reply::Started.text(), "Backend started\n");
    assert_eq!(Reply::AlreadyRunning.text(), "Backend started\n");
    assert_eq!(Reply::Stopped("gone".to_string()).text(), "gone");
    assert_eq!(Reply::NotRunning.text(), "Backend is not running");
    assert_eq!(
        Reply::CommitInfo {
            stdout: "commit".to_string(),
            stderr: "warning".to_string()
        }
        .text(),
        "commit"
    );
    assert_eq!(Reply::Stdout("out".to_string()).text(), "out");
    assert_eq!(Reply::Stderr("err".to_string()).text(), "err");
}

#[test]
fn errors_in_words() {
    let error = Error::new(ErrorKind::SpawnFailed, "no java".to_string());
    assert_eq!(error.kind(), ErrorKind::SpawnFailed);
    assert_eq!(error.to_text(), "no java");
}
