use std::io::Read;

use devpanel::events::{run_reader, PtyEvent, ReadOutcome};
use devpanel::manager::PtyManager;
use devpanel::session::{force_kill, PtyHandle};

use portable_pty::{native_pty_system, CommandBuilder, PtySize};

fn spawn_in_pty(program: &str, args: &[&str]) -> (Box<dyn portable_pty::Child + Send + Sync>, Box<dyn Read + Send>, u32) {
    let pty_system = native_pty_system();
    let pair = pty_system
        .openpty(PtySize { rows: 24, cols: 80, pixel_width: 0, pixel_height: 0 })
        .expect("openpty");
    let mut cmd = CommandBuilder::new(program);
    cmd.args(args);
    let child = pair.slave.spawn_command(cmd).expect("spawn");
    let reader = pair.master.try_clone_reader().expect("reader");
    let pid = child.process_id().expect("pid");
    drop(pair);
    (child, reader, pid)
}

#[test]
fn suspend_resume_symmetry_on_a_live_process() {
    let (mut child, _reader, pid) = spawn_in_pty("sleep", &["5"]);
    assert!(pid <= 0x7fffffff);

    let mut handle = PtyHandle::new("suspend-test");
    handle.mark_spawned(pid);

    let suspended = handle.suspend().expect("suspend never errs");
    assert!(suspended, "a live process accepts a stop signal");
    assert!(handle.suspended());

    let resumed = handle.resume().expect("resume never errs");
    assert!(resumed, "a stopped process accepts a continue signal");
    assert!(!handle.suspended());

    // Resuming again without a prior suspend reports false.
    let again = handle.resume().expect("resume never errs");
    assert!(!again);

    if let Some(ticket) = handle.kill() {
        force_kill(&ticket);
    }
    let _ = child.wait();
}

#[test]
fn kill_is_idempotent_on_a_live_process() {
    let (mut child, _reader, pid) = spawn_in_pty("sleep", &["30"]);
    let mut handle = PtyHandle::new("kill-test");
    handle.mark_spawned(pid);

    let first = handle.kill();
    assert!(first.is_some());
    assert!(!handle.running());
    assert!(!handle.suspended());
    assert!(handle.pid().is_none());
    if let Some(ticket) = first {
        force_kill(&ticket);
    }

    let second = handle.kill();
    assert!(second.is_none());
    assert!(!handle.running());
    assert!(!handle.suspended());
    assert!(handle.pid().is_none());

    let status = child.wait().expect("wait");
    assert!(!status.success(), "the killed child did not exit normally");
}

#[test]
fn end_to_end_output_then_single_terminal_event() {
    let manager = PtyManager::new();
    let env: Vec<(String, String)> = Vec::new();
    let plan = manager.run_shell_command(
        "dev-e2e",
        "/bin/sh",
        "printf hello",
        "/tmp",
        24,
        80,
        &env,
    );
    assert_eq!(plan.program, "/bin/sh");
    assert_eq!(plan.args[0], "-c");
    assert_eq!(plan.args[1], "printf hello");

    // Carry the plan out by hand, the way the application shell would.
    let pty_system = native_pty_system();
    let pair = pty_system
        .openpty(PtySize { rows: plan.rows, cols: plan.cols, pixel_width: 0, pixel_height: 0 })
        .expect("openpty");
    let mut cmd = CommandBuilder::new(&plan.program);
    for a in &plan.args {
        cmd.arg(a);
    }
    cmd.cwd(&plan.working_dir);
    let mut child = pair.slave.spawn_command(cmd).expect("spawn");
    let mut reader = pair.master.try_clone_reader().expect("reader");
    drop(pair);

    let status = child.wait().expect("wait");
    assert!(status.success(), "the command exits with code zero");

    let mut outcomes: Vec<ReadOutcome> = Vec::new();
    let mut buffer = [0u8; 4096];
    loop {
        match reader.read(&mut buffer) {
            Ok(0) => {
                outcomes.push(ReadOutcome::Eof);
                break;
            }
            Ok(n) => outcomes.push(ReadOutcome::Data(buffer[..n].to_vec())),
            Err(e) => {
                outcomes.push(ReadOutcome::Failed(e.to_string()));
                break;
            }
        }
    }

    let events = run_reader(plan.id.as_str(), &outcomes);
    assert!(!events.is_empty());
    let mut bytes: Vec<u8> = Vec::new();
    let mut terminal_count = 0;
    for (i, ev) in events.iter().enumerate() {
        match ev {
            PtyEvent::Output { pty_id, data } => {
                assert_eq!(pty_id, "dev-e2e");
                assert_eq!(terminal_count, 0, "no output after the terminal event");
                bytes.extend_from_slice(data);
            }
            PtyEvent::Exited { pty_id, exit_code } => {
                assert_eq!(pty_id, "dev-e2e");
                assert!(exit_code.is_none(), "the reader learns no code from end of file");
                terminal_count += 1;
                assert_eq!(i, events.len() - 1, "nothing follows the terminal event");
            }
            PtyEvent::Error { pty_id, .. } => {
                assert_eq!(pty_id, "dev-e2e");
                terminal_count += 1;
                assert_eq!(i, events.len() - 1, "nothing follows the terminal event");
            }
        }
    }
    assert_eq!(terminal_count, 1, "exactly one terminal event per session");
    let text = String::from_utf8_lossy(&bytes);
    assert!(text.contains("hello"), "the output carries the child's text: {:?}", text);
}
