//! What one child-process invocation is asked to do, what came back, and
//! whether its exit status is acceptable.
use vstd::prelude::*;

verus! {

/// The full description of one child-process invocation. Environment entries
/// are laid over the inherited environment in order, so a later entry for a
/// key wins.
#[derive(Clone, Debug)]
pub struct ExecutionRequest {
    pub program: String,
    pub args: Vec<String>,
    pub current_dir: Option<String>,
    pub env: Vec<(String, String)>,
    pub stdin: Option<Vec<u8>>,
    pub capture_stdout: bool,
    pub capture_stderr: bool,
}

/// The exit status of a finished child and the streams that were captured
/// (empty where a stream was not captured).
#[derive(Clone, Debug)]
pub struct ExecutionResult {
    /// The exit code; `None` where a signal ended the child.
    pub exit_code: Option<i32>,
    pub stdout: Vec<u8>,
    pub stderr: Vec<u8>,
}

/// Why an invocation failed.
#[derive(Debug)]
pub enum ExecutionError {
    /// The child could not be started.
    Spawn { program: String, reason: String },
    /// The child ended other than with exit code zero.
    Failed { program: String, exit_code: Option<i32> },
}

pub open spec fn env_view(env: Seq<(String, String)>) -> Seq<(Seq<char>, Seq<char>)> {
    env.map_values(|kv: (String, String)| (kv.0@, kv.1@))
}

/// The value the child sees for `key` among the overrides: the last entry for
/// it, or `None` where the overrides leave the inherited value alone.
pub open spec fn override_of(env: Seq<(Seq<char>, Seq<char>)>, key: Seq<char>) -> Option<Seq<char>>
    decreases env.len(),
{
    if env.len() == 0 {
        None
    } else if env.last().0 == key {
        Some(env.last().1)
    } else {
        override_of(env.drop_last(), key)
    }
}

impl ExecutionRequest {
    /// An invocation of `program` with no arguments, the current directory,
    /// the inherited environment, no input, and nothing captured.
    pub fn new(program: &str) -> (r: ExecutionRequest)
        ensures
            r.program@ == program@,
            r.args@.len() == 0,
            r.current_dir is None,
            r.env@.len() == 0,
            r.stdin is None,
            !r.capture_stdout,
            !r.capture_stderr,
    {
        ExecutionRequest {
            program: String::from_str(program),
            args: Vec::new(),
            current_dir: None,
            env: Vec::new(),
            stdin: None,
            capture_stdout: false,
            capture_stderr: false,
        }
    }

    /// Appends one argument.
    pub fn arg(&mut self, a: &str)
        ensures
            final(self).args@.len() == old(self).args@.len() + 1,
            final(self).args@.last()@ == a@,
            final(self).args@.drop_last() == old(self).args@,
            final(self).program == old(self).program,
            final(self).current_dir == old(self).current_dir,
            final(self).env == old(self).env,
            final(self).stdin == old(self).stdin,
            final(self).capture_stdout == old(self).capture_stdout,
            final(self).capture_stderr == old(self).capture_stderr,
    {
        self.args.push(String::from_str(a));
        assert(self.args@.drop_last() =~= old(self).args@);
    }

    /// Adds an environment override; it wins over earlier ones for `key`.
    pub fn env(&mut self, key: &str, value: &str)
        ensures
            env_view(final(self).env@) == env_view(old(self).env@).push((key@, value@)),
            override_of(env_view(final(self).env@), key@) == Some(value@),
            final(self).program == old(self).program,
            final(self).args == old(self).args,
            final(self).current_dir == old(self).current_dir,
            final(self).stdin == old(self).stdin,
            final(self).capture_stdout == old(self).capture_stdout,
            final(self).capture_stderr == old(self).capture_stderr,
    {
        self.env.push((String::from_str(key), String::from_str(value)));
        assert(env_view(self.env@) =~= env_view(old(self).env@).push((key@, value@)));
    }

    /// Sets the working directory.
    pub fn current_dir(&mut self, dir: &str)
        ensures
            final(self).current_dir matches Some(d) && d@ == dir@,
            final(self).program == old(self).program,
            final(self).args == old(self).args,
            final(self).env == old(self).env,
            final(self).stdin == old(self).stdin,
            final(self).capture_stdout == old(self).capture_stdout,
            final(self).capture_stderr == old(self).capture_stderr,
    {
        self.current_dir = Some(String::from_str(dir));
    }

    /// Supplies bytes for the child's standard input, which is closed after
    /// them.
    pub fn stdin(&mut self, input: Vec<u8>)
        ensures
            final(self).stdin == Some(input),
            final(self).program == old(self).program,
            final(self).args == old(self).args,
            final(self).current_dir == old(self).current_dir,
            final(self).env == old(self).env,
            final(self).capture_stdout == old(self).capture_stdout,
            final(self).capture_stderr == old(self).capture_stderr,
    {
        self.stdin = Some(input);
    }

    /// Chooses which streams to capture; the others go to the harness's own.
    pub fn capture(&mut self, stdout: bool, stderr: bool)
        ensures
            final(self).capture_stdout == stdout,
            final(self).capture_stderr == stderr,
            final(self).program == old(self).program,
            final(self).args == old(self).args,
            final(self).current_dir == old(self).current_dir,
            final(self).env == old(self).env,
            final(self).stdin == old(self).stdin,
    {
        self.capture_stdout = stdout;
        self.capture_stderr = stderr;
    }
}

impl ExecutionResult {
    /// Accepts exactly a child that exited with code zero.
    pub fn require_success(&self, program: &str) -> (r: Result<(), ExecutionError>)
        ensures
            r is Ok <==> self.exit_code == Some(0i32),
            r matches Err(e) ==> e matches ExecutionError::Failed { program: p, exit_code } && p@
                == program@ && exit_code == self.exit_code,
    {
        match self.exit_code {
            Some(0) => Ok(()),
            _ => Err(
                ExecutionError::Failed {
                    program: String::from_str(program),
                    exit_code: self.exit_code,
                },
            ),
        }
    }
}

} // verus!
