use daemon::backend::{Action, Backend, Event, Phase, Reply};
use daemon::command::Output;
use daemon::error::{Error, ErrorKind};
use daemon::process::BackendProcess;

fn strings(list: &[&str]) -> Vec<String> {
    list.iter().map(|s| s.to_string()).collect()
}

fn ok() -> Output {
    Output {
        success: true,
        status: "exit status: 0".to_string(),
        stdout: Vec::new(),
        stderr: Vec::new(),
    }
}

fn running() -> Backend {
    let mut backend = Backend::new("/srv/app".to_string());
    backend.start();
    backend.advance(Event::Ran(Ok(ok())));
    backend.advance(Event::Listed(Ok(strings(&["app.jar"]))));
    backend.advance(Event::Resolved(Ok("/srv/app/target/app.jar".to_string())));
    assert_eq!(
        backend.advance(Event::Spawned(Ok(77))),
        Action::Done(Ok(Reply::Started))
    );
    backend
}

/// One standard output query whose read finds `available`.
fn query_stdout(backend: &mut Backend, available: &[u8]) -> String {
    assert_eq!(backend.stdout(), Action::ReadStdout);
    assert_eq!(backend.phase(), Phase::ReadingStdout);
    match backend.advance(Event::Read(Ok(available.to_vec()))) {
        Action::Done(Ok(Reply::Stdout(text))) => text,
        other => panic!("unexpected action {:?}", other),
    }
}

/// One standard error query whose read finds `available`.
fn query_stderr(backend: &mut Backend, available: &[u8]) -> String {
    assert_eq!(backend.stderr(), Action::ReadStderr);
    assert_eq!(backend.phase(), Phase::ReadingStderr);
    match backend.advance(Event::Read(Ok(available.to_vec()))) {
        Action::Done(Ok(Reply::Stderr(text))) => text,
        other => panic!("unexpected action {:?}", other),
    }
}

#[test]
fn a_fresh_handle_has_accumulated_nothing() {
    let process = BackendProcess::new(12);
    assert_eq!(process.pid(), 12);
    assert_eq!(process.stdout(), "");
    assert_eq!(process.stderr(), "");
}

#[test]
fn poll_with_nothing_available_gives_nothing() {
    let mut process = BackendProcess::new(12);
    process.append_stdout("so far");
    assert_eq!(process.poll_stdout(b""), None);
    assert_eq!(process.stdout(), "so far");
    assert_eq!(process.poll_stderr(b""), None);
    assert_eq!(process.stderr(), "");
}

#[test]
fn poll_returns_what_was_read_and_leaves_the_accumulation() {
    let mut process = BackendProcess::new(12);
    process.append_stdout("so far\n");
    process.append_stderr("problems\n");
    assert_eq!(process.poll_stdout(b"hello "), Some("hello ".to_string()));
    assert_eq!(process.poll_stdout(b"world\n"), Some("world\n".to_string()));
    assert_eq!(process.poll_stderr(b"oops\n"), Some("oops\n".to_string()));
    assert_eq!(process.stdout(), "so far\n");
    assert_eq!(process.stderr(), "problems\n");
    assert_eq!(process.pid(), 12);
}

#[test]
fn a_caller_that_polls_and_appends_has_the_output_once() {
    let mut process = BackendProcess::new(12);
    for chunk in [&b"hello "[..], &b""[..], &b"world\n"[..]] {
        if let Some(text) = process.poll_stdout(chunk) {
            process.append_stdout(&text);
        }
    }
    assert_eq!(process.stdout(), "hello world\n");
    if let Some(text) = process.poll_stderr(b"oops\n") {
        process.append_stderr(&text);
    }
    assert_eq!(process.stderr(), "oops\n");
    assert_eq!(process.stdout(), "hello world\n");
}

#[test]
fn append_extends_one_stream_only() {
    let mut process = BackendProcess::new(12);
    process.append_stdout("a");
    process.append_stdout("");
    process.append_stdout("b");
    assert_eq!(process.stdout(), "ab");
    assert_eq!(process.stderr(), "");
    process.append_stderr("c");
    assert_eq!(process.stdout(), "ab");
    assert_eq!(process.stderr(), "c");
}

#[test]
fn undecodable_bytes_become_placeholders() {
    let mut process = BackendProcess::new(12);
    assert_eq!(
        process.poll_stdout(&[b'a', 0xff, b'b']),
        Some("a\u{fffd}b".to_string())
    );
    assert_eq!(
        process.poll_stderr(&[0xc3]),
        Some("\u{fffd}".to_string())
    );
}

#[test]
fn well_formed_text_is_decoded_as_it_is() {
    let mut process = BackendProcess::new(12);
    assert_eq!(
        process.poll_stdout("héllo wörld ✓\n".as_bytes()),
        Some("héllo wörld ✓\n".to_string())
    );
}

#[test]
fn the_kill_command_of_a_handle() {
    let process = BackendProcess::new(31337);
    let command = process.kill();
    assert_eq!(command.program, "kill");
    assert_eq!(command.args, strings(&["31337"]));
    assert_eq!(command.dir, None);
}

#[test]
fn the_launch_command_of_an_artifact() {
    let command = BackendProcess::launch("/srv/app/target/app.jar");
    assert_eq!(command.program, "java");
    assert_eq!(command.args, strings(&["-jar", "/srv/app/target/app.jar"]));
    assert_eq!(command.dir, None);
}

#[test]
fn a_query_with_nothing_to_read_returns_the_accumulation_unchanged() {
    let mut backend = running();
    assert_eq!(query_stdout(&mut backend, b""), "");
    assert_eq!(query_stdout(&mut backend, b"line 1\n"), "line 1\n");
    assert_eq!(query_stdout(&mut backend, b""), "line 1\n");
    assert_eq!(query_stdout(&mut backend, b""), "line 1\n");
}

#[test]
fn a_query_ends_with_its_first_read_though_the_worker_keeps_writing() {
    let mut backend = running();
    assert_eq!(backend.stdout(), Action::ReadStdout);
    assert_eq!(
        backend.advance(Event::Read(Ok(b"tick 1\n".to_vec()))),
        Action::Done(Ok(Reply::Stdout("tick 1\n".to_string())))
    );
    assert_eq!(backend.phase(), Phase::Idle);
    assert_eq!(backend.stdout(), Action::ReadStdout);
    assert_eq!(
        backend.advance(Event::Read(Ok(b"tick 2\n".to_vec()))),
        Action::Done(Ok(Reply::Stdout("tick 1\ntick 2\n".to_string())))
    );
    assert_eq!(backend.stderr(), Action::ReadStderr);
    assert_eq!(
        backend.advance(Event::Read(Ok(b"warn\n".to_vec()))),
        Action::Done(Ok(Reply::Stderr("warn\n".to_string())))
    );
    assert_eq!(backend.phase(), Phase::Idle);
}

#[test]
fn a_read_that_comes_after_the_query_has_ended_is_not_taken_in() {
    let mut backend = running();
    assert_eq!(query_stdout(&mut backend, b"kept\n"), "kept\n");
    assert_eq!(
        backend.advance(Event::Read(Ok(b"stray\n".to_vec()))),
        Action::Done(Err(Error {
            kind: ErrorKind::StateRecovered,
            message: "Unexpected event; the operation in progress was abandoned".to_string()
        }))
    );
    assert_eq!(query_stdout(&mut backend, b""), "kept\n");
}

#[test]
fn undecodable_bytes_keep_what_came_before() {
    let mut backend = running();
    assert_eq!(query_stdout(&mut backend, b"before "), "before ");
    assert_eq!(
        query_stdout(&mut backend, &[b'a', 0xff, b'b']),
        "before a\u{fffd}b"
    );
}

#[test]
fn a_character_split_between_reads_becomes_placeholders() {
    let mut backend = running();
    let bytes = "é".as_bytes();
    query_stdout(&mut backend, b"caf");
    let first = query_stdout(&mut backend, &bytes[..1]);
    let second = query_stdout(&mut backend, &bytes[1..]);
    assert_eq!(first, "caf\u{fffd}");
    assert_eq!(second, "caf\u{fffd}\u{fffd}");
    assert!(second.starts_with(&first));
}

#[test]
fn earlier_output_is_a_prefix_of_later_output() {
    let mut backend = running();
    let mut seen: Vec<String> = Vec::new();
    let reads: [&[u8]; 6] = [
        b"",
        b"Started",
        b" in 2.3 s\nListening\n",
        b"",
        &[0xe2, 0x9c],
        &[0x93, b'\n'],
    ];
    for available in reads {
        seen.push(query_stdout(&mut backend, available));
    }
    for i in 0..seen.len() {
        for j in i..seen.len() {
            assert!(seen[j].starts_with(&seen[i]));
        }
    }
    assert_eq!(seen[2], "Started in 2.3 s\nListening\n");
    assert_eq!(seen[3], seen[2]);
}

#[test]
fn a_start_between_two_queries_does_not_disturb_the_output() {
    let mut backend = running();
    let first = query_stdout(&mut backend, b"one\n");
    assert_eq!(backend.start(), Action::Done(Ok(Reply::AlreadyRunning)));
    let second = query_stdout(&mut backend, b"two\n");
    assert_eq!(first, "one\n");
    assert_eq!(second, "one\ntwo\n");
    assert!(second.starts_with(&first));
}

#[test]
fn the_two_streams_accumulate_apart() {
    let mut backend = running();
    assert_eq!(query_stdout(&mut backend, b"out 1\n"), "out 1\n");
    assert_eq!(query_stderr(&mut backend, b"err 1\n"), "err 1\n");
    assert_eq!(query_stdout(&mut backend, b"out 2\n"), "out 1\nout 2\n");
    assert_eq!(query_stderr(&mut backend, b""), "err 1\n");
}

#[test]
fn queries_do_not_touch_the_worker() {
    let mut backend = running();
    query_stdout(&mut backend, b"x");
    query_stderr(&mut backend, b"y");
    backend.commit_info();
    backend.advance(Event::Ran(Ok(ok())));
    assert!(backend.running());
    assert_eq!(backend.pid(), Some(77));
    assert_eq!(backend.phase(), Phase::Idle);
}

#[test]
fn a_failed_read_reports_io_failed_and_keeps_the_accumulation() {
    let mut backend = running();
    query_stdout(&mut backend, b"kept\n");
    assert_eq!(backend.stdout(), Action::ReadStdout);
    assert_eq!(
        backend.advance(Event::Read(Err("Bad file descriptor (os error 9)".to_string()))),
        Action::Done(Err(Error {
            kind: ErrorKind::IoFailed,
            message: "Bad file descriptor (os error 9)".to_string()
        }))
    );
    assert_eq!(backend.phase(), Phase::Idle);
    assert!(backend.running());
    assert_eq!(query_stdout(&mut backend, b""), "kept\n");

    assert_eq!(backend.stderr(), Action::ReadStderr);
    assert_eq!(
        backend.advance(Event::Read(Err("closed".to_string()))),
        Action::Done(Err(Error {
            kind: ErrorKind::IoFailed,
            message: "closed".to_string()
        }))
    );
}

#[test]
fn a_new_worker_starts_with_an_empty_accumulation() {
    let mut backend = running();
    assert_eq!(query_stdout(&mut backend, b"old\n"), "old\n");
    backend.restart();
    backend.advance(Event::Ran(Ok(ok())));
    backend.advance(Event::Exited(Ok(ok())));
    backend.advance(Event::Ran(Ok(ok())));
    backend.advance(Event::Listed(Ok(strings(&["app.jar"]))));
    backend.advance(Event::Resolved(Ok("/srv/app/target/app.jar".to_string())));
    backend.advance(Event::Spawned(Ok(78)));
    assert_eq!(query_stdout(&mut backend, b""), "");
    assert_eq!(query_stdout(&mut backend, b"new\n"), "new\n");
}

#[test]
fn queries_of_a_stopped_supervisor_say_so() {
    let mut backend = Backend::new("/srv/app".to_string());
    assert_eq!(backend.stdout(), Action::Done(Ok(Reply::NotRunning)));
    assert_eq!(backend.stderr(), Action::Done(Ok(Reply::NotRunning)));
    assert_eq!(backend.phase(), Phase::Idle);
}
