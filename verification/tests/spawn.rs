use dmexec::daemon::Executor;

fn read_file(path: &str) -> Option<Vec<u8>> {
    let fd = match nix::fcntl::open(path, nix::fcntl::OFlag::O_RDONLY, nix::sys::stat::Mode::empty())
    {
        Ok(fd) => fd,
        Err(_) => return None,
    };
    let mut out: Vec<u8> = Vec::new();
    let mut buf = [0u8; 4096];
    loop {
        match nix::unistd::read(&fd, &mut buf) {
            Ok(0) => break,
            Ok(n) => out.extend_from_slice(&buf[..n]),
            Err(_) => return None,
        }
    }
    Some(out)
}

fn remove_file(path: &str) {
    let _ = nix::unistd::unlink(path);
}

#[test]
fn spawn_true_returns_positive_pid() {
    let cmd = vec!["true".to_string()];
    let mut ex = Executor::new(&cmd, false);
    let pid = ex.run().expect("spawn should succeed");
    assert!(pid > 0);
}

#[test]
fn spawn_shell_wrapped_returns_positive_pid() {
    let cmd = vec!["true".to_string()];
    let mut ex = Executor::new(&cmd, true);
    let pid = ex.run().expect("spawn should succeed");
    assert!(pid > 0);
}

#[test]
fn spawn_writes_pid_file() {
    let path = "/tmp/dmexec_test_pidfile.txt";
    remove_file(path);
    let cmd = vec!["true".to_string()];
    let mut ex = Executor::new(&cmd, false).with_pid(Some(path.to_string()));
    let pid = ex.run().expect("spawn should succeed");
    let content = read_file(path).expect("pid file should exist");
    assert_eq!(content, pid.to_string().into_bytes());
    remove_file(path);
}

#[test]
fn spawn_logs_standard_output() {
    let path = "/tmp/dmexec_test_logfile.txt";
    remove_file(path);
    let cmd = vec!["echo".to_string(), "hello-from-daemon".to_string()];
    let mut ex = Executor::new(&cmd, false).with_log(Some(path.to_string()));
    let pid = ex.run().expect("spawn should succeed");
    assert!(pid > 0);
    let mut content: Vec<u8> = Vec::new();
    for _ in 0..10 {
        if let Some(bytes) = read_file(path) {
            content = bytes;
            if !content.is_empty() {
                break;
            }
        }
        nix::unistd::sleep(1);
    }
    let text = String::from_utf8(content).expect("log should be text");
    assert!(text.contains("hello-from-daemon"));
    remove_file(path);
}

#[test]
fn spawn_twice_gives_distinct_pids() {
    let cmd = vec!["true".to_string()];
    let mut first = Executor::new(&cmd, false).with_name_group(
        Some("a-name".to_string()),
        Some("a-group".to_string()),
    );
    let mut second = Executor::new(&cmd, false).with_name_group(
        Some("a-name".to_string()),
        Some("a-group".to_string()),
    );
    let pid_one = first.run().expect("first spawn should succeed");
    let pid_two = second.run().expect("second spawn should succeed");
    assert_ne!(pid_one, pid_two);
}

#[test]
fn nul_in_command_is_caught_before_spawning() {
    let cmd = vec!["echo".to_string(), "bad\0arg".to_string()];
    let ex = Executor::new(&cmd, false);
    assert!(ex.has_nul());
    let ok = Executor::new(&vec!["true".to_string()], true);
    assert!(!ok.has_nul());
}
