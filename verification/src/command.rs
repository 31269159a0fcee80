//! Execution of external processes, modelled at its boundary: the
//! executor's budget (wall-clock timeout, output cap), the result type
//! with its truncation rule, and the sandbox's command and argument
//! checks.  Spawning, waiting and killing happen in the embedding
//! program, which hands the captured output back as plain values.
use vstd::prelude::*;

use crate::strutil::string_eq;
use crate::MCPError;

verus! {

/// Runs external commands under a wall-clock timeout and an output cap.
#[derive(Debug, Clone, Copy, PartialEq, Eq, Structural)]
pub struct CommandExecutor {
    pub timeout_secs: u64,
    pub max_output_size: usize,
}

impl CommandExecutor {
    /// The stock budget: five minutes, ten megabytes of captured output.
    pub fn new() -> (r: CommandExecutor)
        ensures
            r.timeout_secs == 300,
            r.max_output_size == 10485760,
    {
        CommandExecutor { timeout_secs: 300, max_output_size: 10485760 }
    }

    /// Packs captured output into a result, truncating each stream to
    /// half the cap — and saying so — when the two together exceed it.
    pub fn build_result(
        &self,
        success: bool,
        exit_code: Option<i32>,
        stdout: String,
        stderr: String,
    ) -> (r: CommandResult)
        ensures
            r.success == success,
            r.exit_code == exit_code,
            r.truncated == (stdout@.len() + stderr@.len() > self.max_output_size),
            !r.truncated ==> r.stdout@ == stdout@ && r.stderr@ == stderr@,
            r.truncated ==> r.stdout@ == stdout@.subrange(
                0,
                if stdout@.len() < self.max_output_size / 2 {
                    stdout@.len() as int
                } else {
                    (self.max_output_size / 2) as int
                },
            ) && r.stderr@ == stderr@.subrange(
                0,
                if stderr@.len() < self.max_output_size / 2 {
                    stderr@.len() as int
                } else {
                    (self.max_output_size / 2) as int
                },
            ),
    {
        let out_len = stdout.as_str().unicode_len();
        let err_len = stderr.as_str().unicode_len();
        if out_len <= usize::MAX - err_len && out_len + err_len <= self.max_output_size {
            CommandResult { success, stdout, stderr, exit_code, truncated: false }
        } else {
            let lim = self.max_output_size / 2;
            let keep_out = if out_len < lim {
                out_len
            } else {
                lim
            };
            let keep_err = if err_len < lim {
                err_len
            } else {
                lim
            };
            let short_out = stdout.as_str().substring_char(0, keep_out).to_owned();
            let short_err = stderr.as_str().substring_char(0, keep_err).to_owned();
            CommandResult {
                success,
                stdout: short_out,
                stderr: short_err,
                exit_code,
                truncated: true,
            }
        }
    }
}

/// What one external command produced: its exit status and its two
/// output streams, with a flag saying whether they were cut to the cap.
#[derive(Debug, Clone)]
pub struct CommandResult {
    pub success: bool,
    pub stdout: String,
    pub stderr: String,
    pub exit_code: Option<i32>,
    pub truncated: bool,
}

impl CommandResult {
    /// The result as one line of text: the standard output on success,
    /// the error stream otherwise.
    pub fn to_string(&self) -> (r: String)
        ensures
            self.success ==> r@ == self.stdout@,
            !self.success ==> r@ == "Error: "@ + self.stderr@,
    {
        if self.success {
            self.stdout.clone()
        } else {
            String::from_str("Error: ").concat(self.stderr.as_str())
        }
    }
}

/// Whether the text holds two adjacent dots anywhere.
pub open spec fn has_dotdot(s: Seq<char>) -> bool {
    exists|i: int| 0 <= i && i + 1 < s.len() && #[trigger] s[i] == '.' && s[i + 1] == '.'
}

/// Whether the text holds a tilde anywhere.
pub open spec fn has_tilde(s: Seq<char>) -> bool {
    exists|i: int| 0 <= i < s.len() && s[i] == '~'
}

/// Whether an argument would be refused: a traversal sequence or a home
/// reference.
pub open spec fn arg_refused(s: Seq<char>) -> bool {
    has_dotdot(s) || has_tilde(s)
}

fn check_arg(s: &str) -> (r: bool)
    ensures
        r == arg_refused(s@),
{
    let len = s.unicode_len();
    let mut i: usize = 0;
    while i < len
        invariant
            i <= len,
            len == s@.len(),
            forall|j: int| 0 <= j < i ==> #[trigger] s@[j] != '~',
            forall|j: int| 0 <= j && j + 1 < s@.len() && j < i ==> !(#[trigger] s@[j] == '.' && s@[j
                + 1] == '.'),
        decreases len - i,
    {
        let c = s.get_char(i);
        if c == '~' {
            return true;
        }
        if c == '.' && i + 1 < len {
            if s.get_char(i + 1) == '.' {
                return true;
            }
        }
        i = i + 1;
    }
    false
}

/// One planned subprocess invocation: the program and its arguments,
/// ready for the embedding program to spawn.
#[derive(Debug, Clone)]
pub struct PlannedCommand {
    pub program: String,
    pub args: Vec<String>,
}

/// Appends one argument, extending the argument list's view by exactly
/// that text.
pub fn push_arg(v: &mut Vec<String>, s: String)
    ensures
        final(v).deep_view() == old(v).deep_view().push(s@),
{
    let ghost pre = v.deep_view();
    v.push(s);
    proof {
        assert(v.deep_view() =~= pre.push(v@.last()@));
    }
}

/// Runs only commands from a fixed allow-list, and refuses arguments
/// that look like path traversal.
pub struct SandboxedExecutor {
    pub base_executor: CommandExecutor,
    pub allowed_commands: Vec<String>,
}

/// Whether the allow-list holds this command.
pub open spec fn allows(cmds: Seq<String>, cmd: Seq<char>) -> bool {
    exists|i: int| 0 <= i < cmds.len() && (#[trigger] cmds[i])@ == cmd
}

impl SandboxedExecutor {
    /// A sandbox over the stock executor with the given allow-list.
    pub fn new(allowed_commands: Vec<String>) -> (r: SandboxedExecutor)
        ensures
            r.base_executor.timeout_secs == 300,
            r.base_executor.max_output_size == 10485760,
            r.allowed_commands@ == allowed_commands@,
    {
        SandboxedExecutor { base_executor: CommandExecutor::new(), allowed_commands }
    }

    /// Admits a command exactly when it stands on the allow-list and no
    /// argument carries a traversal sequence or a home reference; a
    /// refusal names its reason.
    pub fn check_command(&self, cmd: &str, args: &Vec<String>) -> (r: Result<(), MCPError>)
        ensures
            match r {
                Ok(_) => allows(self.allowed_commands@, cmd@) && forall|i: int|
                    0 <= i < args@.len() ==> !arg_refused((#[trigger] args@[i])@),
                Err(e) => (e matches MCPError::PermissionDenied(m) && (!allows(
                    self.allowed_commands@,
                    cmd@,
                ) ==> m@ == "Command '"@ + cmd@ + "' is not allowed"@) && (allows(
                    self.allowed_commands@,
                    cmd@,
                ) ==> (exists|i: int| 0 <= i < args@.len() && arg_refused((#[trigger] args@[i])@))
                    && m@ == "Path traversal in arguments not allowed"@)),
            },
    {
        let n = self.allowed_commands.len();
        let mut i: usize = 0;
        let mut found = false;
        while i < n && !found
            invariant
                i <= n,
                n == self.allowed_commands@.len(),
                found ==> allows(self.allowed_commands@, cmd@),
                !found ==> forall|j: int|
                    0 <= j < i ==> (#[trigger] self.allowed_commands@[j])@ != cmd@,
            decreases n - i + (if found { 0int } else { 1int }),
        {
            if string_eq(&self.allowed_commands[i], cmd) {
                found = true;
            } else {
                i = i + 1;
            }
        }
        if !found {
            return Err(
                MCPError::PermissionDenied(
                    String::from_str("Command '").concat(cmd).concat("' is not allowed"),
                ),
            );
        }
        let m = args.len();
        let mut k: usize = 0;
        while k < m
            invariant
                m == args@.len(),
                k <= m,
                allows(self.allowed_commands@, cmd@),
                forall|j: int| 0 <= j < k ==> !arg_refused((#[trigger] args@[j])@),
            decreases m - k,
        {
            if check_arg(args[k].as_str()) {
                return Err(
                    MCPError::PermissionDenied(
                        String::from_str("Path traversal in arguments not allowed"),
                    ),
                );
            }
            k = k + 1;
        }
        Ok(())
    }
}

} // verus!
