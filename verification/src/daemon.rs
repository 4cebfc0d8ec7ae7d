use vstd::prelude::*;
use std::io::Write;

verus! {

use vstd::string::StringExecFns;
use crate::command::{assembled, all_nul_free, assemble_command, has_nul_token};
use crate::error::{Error, PERMISSION_DENIED};
use crate::pidfile::decimal_bytes;

/// What the duplication point yielded to the path of execution that sees it:
/// the parent path sees the child's process id, the child path sees `Child`.
enum Spawned {
    Child,
    Parent(i32),
}

/// The mathematical content of an executor: the assembled argument vector,
/// the optional labels and file paths, and the recorded process id.
pub ghost struct ExecutorView {
    pub cmd: Seq<Seq<char>>,
    pub name: Option<Seq<char>>,
    pub group: Option<Seq<char>>,
    pub log_path: Option<Seq<char>>,
    pub pid_path: Option<Seq<char>>,
    pub pid: u32,
}

/// Turns a command specification into a detached, I/O-redirected OS process
/// and records its identity. The command vector is assembled on creation;
/// labels and file paths are set by the configuration calls; `run` performs
/// the one-shot spawn.
pub struct Executor {
    cmd: Vec<String>,
    name: Option<String>,
    group: Option<String>,
    log_path: Option<String>,
    pid_path: Option<String>,
    pid: u32,
}

impl View for Executor {
    type V = ExecutorView;

    closed spec fn view(&self) -> ExecutorView {
        ExecutorView {
            cmd: self.cmd.deep_view(),
            name: self.name.deep_view(),
            group: self.group.deep_view(),
            log_path: self.log_path.deep_view(),
            pid_path: self.pid_path.deep_view(),
            pid: self.pid,
        }
    }
}

impl Executor {
    /// Creates an executor for the given raw command tokens. With the shell
    /// flag set, the vector becomes the three-element shell invocation whose
    /// run string joins the tokens with single spaces; otherwise the tokens
    /// stand unchanged. Nothing else is configured and no process id is
    /// recorded yet.
    pub fn new(cmd: &Vec<String>, shell: bool) -> (r: Executor)
        ensures
            r@ == (ExecutorView {
                cmd: assembled(cmd.deep_view(), shell),
                name: None,
                group: None,
                log_path: None,
                pid_path: None,
                pid: 0,
            }),
    {
        Executor {
            cmd: assemble_command(cmd, shell),
            name: None,
            group: None,
            log_path: None,
            pid_path: None,
            pid: 0,
        }
    }

    /// Sets the name and group labels. They are metadata only: the spawn
    /// itself never reads them.
    pub fn with_name_group(self, name: Option<String>, group: Option<String>) -> (r: Executor)
        ensures
            r@ == (ExecutorView { name: name.deep_view(), group: group.deep_view(), ..self@ }),
    {
        Executor { name, group, ..self }
    }

    /// Sets the log-file path: the spawned process's standard output and
    /// standard error are redirected into that file, or left as inherited
    /// when none is set.
    pub fn with_log(self, log: Option<String>) -> (r: Executor)
        ensures
            r@ == (ExecutorView { log_path: log.deep_view(), ..self@ }),
    {
        Executor { log_path: log, ..self }
    }

    /// Sets the pid-file path: on a successful spawn the parent writes the
    /// child's decimal process id into that file.
    pub fn with_pid(self, pid: Option<String>) -> (r: Executor)
        ensures
            r@ == (ExecutorView { pid_path: pid.deep_view(), ..self@ }),
    {
        Executor { pid_path: pid, ..self }
    }

    /// Reports whether any assembled token holds an embedded null byte; such
    /// a configuration cannot be spawned and must be refused before any
    /// process is created.
    pub fn has_nul(&self) -> (r: bool)
        ensures
            r == !all_nul_free(self@.cmd),
    {
        has_nul_token(&self.cmd)
    }

    /// The child path of the daemonization sequence, run strictly in order:
    /// become a session leader detached from the controlling terminal, close
    /// the inherited standard input, redirect standard output and error into
    /// the log file when one is configured, and replace the program image
    /// with the assembled command. Each step depends on the one before it.
    /// This function returns only when a step failed, and then yields the
    /// diagnostic the child reports before it aborts; on a successful
    /// replacement the process runs the target command and none of this code
    /// remains.
    fn child_path(cmd: &Vec<String>, log_path: &Option<String>) -> (r: String)
        requires
            cmd@.len() >= 1,
        ensures
            child_diagnostic(r@),
    {
        if let Err(code) = create_session() {
            return Error::diagnostic("setsid fail", code);
        }
        if let Err(code) = close_stdin() {
            return Error::diagnostic("close stdin fail", code);
        }
        if let Some(path) = log_path {
            if let Err(code) = redirect_stdio_to_log(path) {
                return Error::diagnostic("open log file fail", code);
            }
        }
        match replace_image(cmd) {
            Some(code) => Error::diagnostic("execvp fail", code),
            None => {
                let r = String::from_str("execvp fail");
                proof {
                    assert(r@.subrange(0, r@.len() as int) =~= r@);
                }
                r
            },
        }
    }

    /// Performs the one-shot spawn: duplicates the process, lets the child
    /// path detach, redirect and replace its image, and in the parent
    /// persists the child's process id when a pid-file path is configured,
    /// records it, and returns it. Only a duplication failure is returned as
    /// a structured error, classified from the errno value; every failure on
    /// the child path, and a pid-file failure in the parent, aborts the
    /// affected process with a diagnostic, so the error value those paths
    /// would yield (stated below for completeness) never reaches a caller.
    /// The returned process id is always positive, and the configuration is
    /// left unchanged.
    pub fn run(&mut self) -> (r: Result<u32, Error>)
        requires
            old(self)@.cmd.len() >= 1,
            all_nul_free(old(self)@.cmd),
        ensures
            final(self)@.cmd == old(self)@.cmd,
            final(self)@.name == old(self)@.name,
            final(self)@.group == old(self)@.group,
            final(self)@.log_path == old(self)@.log_path,
            final(self)@.pid_path == old(self)@.pid_path,
            r matches Ok(pid) ==> pid > 0 && final(self)@.pid == pid,
            r matches Err(e) ==> final(self)@.pid == old(self)@.pid
                && (e.code matches Some(c) ==> c != PERMISSION_DENIED)
                && (e.msg@ == "fork fail"@ || abort_diagnostic(e.msg@)),
    {
        match duplicate_process() {
            Err(code) => Err(Error::from_os(code, "fork fail")),
            Ok(Spawned::Child) => {
                let msg = Self::child_path(&self.cmd, &self.log_path);
                report_and_abort(&msg);
                Err(Error { code: None, msg })
            },
            Ok(Spawned::Parent(pid)) => {
                if let Some(path) = &self.pid_path {
                    let digits = decimal_bytes(pid as u32);
                    match create_and_write(path, &digits) {
                        Ok(n) => {
                            if n != digits.len() {
                                let m = String::from_str("write pid fail");
                                report_and_abort(&m);
                                return Err(Error { code: None, msg: m });
                            }
                        },
                        Err(code) => {
                            let m = Error::diagnostic("open pid file fail", code);
                            report_and_abort(&m);
                            return Err(Error { code: None, msg: m });
                        },
                    }
                }
                self.pid = pid as u32;
                Ok(self.pid)
            },
        }
    }
}

/// The diagnostics of the paths that abort their process instead of
/// returning: the child path's steps, and the parent's pid-file persistence.
pub open spec fn abort_diagnostic(m: Seq<char>) -> bool {
    ||| child_diagnostic(m)
    ||| "open pid file fail"@.is_prefix_of(m)
    ||| m == "write pid fail"@
}

/// The diagnostics a failed child path can report, one per step of the
/// daemonization sequence.
pub open spec fn child_diagnostic(m: Seq<char>) -> bool {
    ||| "setsid fail"@.is_prefix_of(m)
    ||| "close stdin fail"@.is_prefix_of(m)
    ||| "open log file fail"@.is_prefix_of(m)
    ||| "execvp fail"@.is_prefix_of(m)
}

/// Relies on fork::fork: duplicates the calling process; the parent path
/// sees the child's positive process id (fork(2) returns it to the parent),
/// the child path sees `Child`; on failure no child exists and the errno
/// value, read through errno::errno, is returned.
#[verifier::external_body]
fn duplicate_process() -> (r: Result<Spawned, i32>)
    ensures
        r matches Ok(Spawned::Parent(pid)) ==> pid > 0,
{
    match fork::fork() {
        Ok(fork::Fork::Child) => Ok(Spawned::Child),
        Ok(fork::Fork::Parent(pid)) => Ok(Spawned::Parent(pid)),
        Err(_) => Err(errno::errno().0),
    }
}

/// Relies on fork::setsid: makes the calling process the leader of a new
/// session with no controlling terminal, returning the new session id (the
/// caller's pid, positive); on failure returns the errno value read through
/// errno::errno.
#[verifier::external_body]
fn create_session() -> (r: Result<i32, i32>)
    ensures
        r matches Ok(sid) ==> sid > 0,
{
    match fork::setsid() {
        Ok(sid) => Ok(sid),
        Err(_) => Err(errno::errno().0),
    }
}

/// Relies on nix::unistd::close on descriptor 0: closes the inherited
/// standard input; on failure returns the errno value.
#[verifier::external_body]
fn close_stdin() -> (r: Result<(), i32>) {
    match nix::unistd::close(0) {
        Ok(()) => Ok(()),
        Err(e) => Err(e as i32),
    }
}

/// Relies on nix::fcntl::open (append, create if absent, write-only, mode
/// 0o644: owner read-write, group and other read) and on
/// nix::unistd::dup2_stdout and nix::unistd::dup2_stderr, which duplicate
/// the opened descriptor onto standard output and standard error. The
/// descriptor cannot cross this boundary, so the three calls share one body;
/// it is released when it drops, the duplicates remain. On failure returns
/// the errno value.
#[verifier::external_body]
fn redirect_stdio_to_log(path: &String) -> (r: Result<(), i32>) {
    let flags = nix::fcntl::OFlag::O_APPEND | nix::fcntl::OFlag::O_CREAT
        | nix::fcntl::OFlag::O_WRONLY;
    let mode = nix::sys::stat::Mode::from_bits_truncate(0o644);
    match nix::fcntl::open(path.as_str(), flags, mode) {
        Ok(fd) => match nix::unistd::dup2_stdout(&fd) {
            Ok(()) => match nix::unistd::dup2_stderr(&fd) {
                Ok(()) => Ok(()),
                Err(e) => Err(e as i32),
            },
            Err(e) => Err(e as i32),
        },
        Err(e) => Err(e as i32),
    }
}

/// Relies on nix::fcntl::open (create if absent, truncate, write-only, mode
/// 0o666 before the umask, as ordinary file creation uses) and on
/// nix::unistd::write, which writes at most the buffer's length and returns
/// how many leading bytes it wrote. The descriptor cannot cross this
/// boundary, so the two calls share one body; it is released when it drops.
/// On failure returns the errno value.
#[verifier::external_body]
fn create_and_write(path: &String, bytes: &Vec<u8>) -> (r: Result<usize, i32>)
    ensures
        r matches Ok(n) ==> n <= bytes@.len(),
{
    let flags = nix::fcntl::OFlag::O_CREAT | nix::fcntl::OFlag::O_TRUNC
        | nix::fcntl::OFlag::O_WRONLY;
    let mode = nix::sys::stat::Mode::from_bits_truncate(0o666);
    match nix::fcntl::open(path.as_str(), flags, mode) {
        Ok(fd) => match nix::unistd::write(&fd, bytes.as_slice()) {
            Ok(n) => Ok(n),
            Err(e) => Err(e as i32),
        },
        Err(e) => Err(e as i32),
    }
}

/// Relies on exec::execvp: replaces the program image with the assembled
/// argument vector, the program looked up through the search path; it
/// returns only on failure, with the errno value, or with nothing when an
/// argument holds an embedded null byte.
#[verifier::external_body]
fn replace_image(argv: &Vec<String>) -> (r: Option<i32>)
    requires
        argv@.len() >= 1,
{
    match exec::execvp(&argv[0], argv) {
        exec::Error::Errno(e) => Some(e.0),
        exec::Error::BadArgument(_) => None,
    }
}

/// Relies on nix::sys::signal::raise with SIGABRT: writes the diagnostic to
/// standard error, then ends the process the way an abort does. Under the
/// default signal disposition, which these freshly forked processes keep,
/// it does not return, so the code that follows a call never runs.
#[verifier::external_body]
fn report_and_abort(msg: &String) {
    let _ = writeln!(std::io::stderr(), "{}", msg.as_str());
    let _ = nix::sys::signal::raise(nix::sys::signal::Signal::SIGABRT);
}

} // verus!
