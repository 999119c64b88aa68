//! The loop executor: where its control files lie, when it may be spawned,
//! and the process that a spawn asks for.

use vstd::prelude::*;
use crate::text::{blank, is_blank, join_path, spec_join_path, texts};

verus! {

/// What a stream of the child process is connected to.
#[derive(Clone, Copy, Debug, PartialEq, Eq, Structural)]
pub enum StdioMode {
    /// Closed: the child reads end of input at once.
    Null,
    /// Captured, and handed on as it is written.
    Piped,
}

/// Extra variables for the environment of a child process, in the order in
/// which they are applied.
#[derive(Clone, Debug, PartialEq, Eq)]
pub struct ExecutionEnv {
    pub vars: Vec<(String, String)>,
}

/// A process to spawn. Every process that this crate asks for leads a
/// process group of its own and is killed, with its group, when its handle
/// is dropped.
#[derive(Clone, Debug, PartialEq, Eq)]
pub struct CommandSpec {
    pub program: String,
    pub args: Vec<String>,
    pub current_dir: String,
    pub env: Vec<(String, String)>,
    pub stdin: StdioMode,
    pub stdout: StdioMode,
    pub stderr: StdioMode,
    pub process_group: bool,
    pub kill_on_drop: bool,
}

impl CommandSpec {
    /// How every child is set up: no input, both outputs captured, a
    /// process group of its own, killed when the handle is dropped.
    pub open spec fn supervised(self) -> bool {
        &&& self.stdin == StdioMode::Null
        &&& self.stdout == StdioMode::Piped
        &&& self.stderr == StdioMode::Piped
        &&& self.process_group
        &&& self.kill_on_drop
    }
}

/// Why the loop cannot be started in a worktree.
#[derive(Clone, Copy, Debug, PartialEq, Eq, Structural)]
pub enum SetupError {
    MissingControlDirectory,
    MissingLoopScript,
    LoopScriptNotExecutable,
    EmptySpec,
}

/// A failure of an executor.
#[derive(Clone, Debug, PartialEq, Eq)]
pub enum ExecutorError {
    /// The worktree or the request is not fit for a spawn; nothing was done.
    Setup(SetupError),
    /// Reading, writing or spawning failed.
    Io(String),
    /// The program to run is not there.
    ExecutableNotFound { program: String },
}

impl SetupError {
    pub open spec fn spec_message(self) -> Seq<char> {
        match self {
            SetupError::MissingControlDirectory =>
                "Ralph not set up in worktree. Missing .ralph-vibe-kanban directory"@,
            SetupError::MissingLoopScript =>
                "Ralph not set up in worktree. Missing .ralph-vibe-kanban/loop.sh"@,
            SetupError::LoopScriptNotExecutable => "Ralph loop.sh is not executable"@,
            SetupError::EmptySpec => "Task must have a description (spec) to use Ralph"@,
        }
    }

    pub fn message(self) -> (r: String)
        ensures
            r@ == self.spec_message(),
    {
        match self {
            SetupError::MissingControlDirectory =>
                "Ralph not set up in worktree. Missing .ralph-vibe-kanban directory".to_owned(),
            SetupError::MissingLoopScript =>
                "Ralph not set up in worktree. Missing .ralph-vibe-kanban/loop.sh".to_owned(),
            SetupError::LoopScriptNotExecutable => "Ralph loop.sh is not executable".to_owned(),
            SetupError::EmptySpec => "Task must have a description (spec) to use Ralph".to_owned(),
        }
    }
}

/// What was found of the control directory in a worktree.
/// `loop_script_mode` holds the permission bits of the entry script where
/// the platform has them and they could be read.
#[derive(Clone, Copy, Debug, PartialEq, Eq, Structural)]
pub struct SetupProbe {
    pub control_dir_exists: bool,
    pub loop_script_exists: bool,
    pub loop_script_mode: Option<u32>,
}

/// Some execute bit is set: for the owner, the group or the others.
pub open spec fn executable_mode(mode: u32) -> bool {
    mode & 0o111 != 0
}

/// The first fault of a worktree's setup, if it has one.
pub open spec fn spec_setup_fault(probe: SetupProbe) -> Option<SetupError> {
    if !probe.control_dir_exists {
        Some(SetupError::MissingControlDirectory)
    } else if !probe.loop_script_exists {
        Some(SetupError::MissingLoopScript)
    } else if probe.loop_script_mode is Some && !executable_mode(probe.loop_script_mode->0) {
        Some(SetupError::LoopScriptNotExecutable)
    } else {
        None
    }
}

/// A file to write before the process is spawned.
#[derive(Clone, Debug, PartialEq, Eq)]
pub struct SpecFile {
    pub path: String,
    pub content: String,
}

/// What a spawn comes to: the specification is written, then the command
/// is run.
#[derive(Clone, Debug, PartialEq, Eq)]
pub struct SpawnRequest {
    pub spec_file: SpecFile,
    pub command: CommandSpec,
}

/// The loop executor. In plan mode it writes an implementation plan; in
/// build mode, the default, it carries the plan out.
#[derive(Clone, Copy, Debug, PartialEq, Eq, Structural)]
pub struct RalphExecutor {
    pub plan_mode: bool,
}

impl Default for RalphExecutor {
    fn default() -> (r: Self)
        ensures
            !r.plan_mode,
    {
        RalphExecutor { plan_mode: false }
    }
}

pub open spec fn spec_ralph_dir(worktree: Seq<char>) -> Seq<char> {
    spec_join_path(worktree, ".ralph-vibe-kanban"@)
}

pub open spec fn spec_loop_script_path(worktree: Seq<char>) -> Seq<char> {
    spec_join_path(spec_ralph_dir(worktree), "loop.sh"@)
}

pub open spec fn spec_spec_path(worktree: Seq<char>) -> Seq<char> {
    spec_join_path(spec_ralph_dir(worktree), "spec"@)
}

/// The arguments of the entry script: `plan` in plan mode, none in build
/// mode.
pub open spec fn spec_mode_args(plan_mode: bool) -> Seq<Seq<char>> {
    if plan_mode {
        seq!["plan"@]
    } else {
        Seq::empty()
    }
}

/// The views of a list of variables.
pub open spec fn var_texts(vars: Seq<(String, String)>) -> Seq<(Seq<char>, Seq<char>)> {
    Seq::new(vars.len(), |i: int| (vars[i].0@, vars[i].1@))
}

/// A copy of a list of variables.
pub fn clone_vars(vars: &Vec<(String, String)>) -> (r: Vec<(String, String)>)
    ensures
        var_texts(r@) == var_texts(vars@),
{
    let mut out: Vec<(String, String)> = Vec::new();
    let mut i: usize = 0;
    while i < vars.len()
        invariant
            i <= vars.len(),
            out@.len() == i,
            forall|j: int|
                0 <= j < i ==> (#[trigger] out@[j]).0@ == vars@[j].0@ && out@[j].1@ == vars@[j].1@,
        decreases vars.len() - i,
    {
        out.push((vars[i].0.clone(), vars[i].1.clone()));
        i += 1;
    }
    assert(var_texts(out@) =~= var_texts(vars@));
    out
}

impl RalphExecutor {
    /// An executor in plan mode.
    pub fn plan() -> (r: Self)
        ensures
            r.plan_mode,
    {
        RalphExecutor { plan_mode: true }
    }

    /// An executor in build mode.
    pub fn build() -> (r: Self)
        ensures
            !r.plan_mode,
    {
        RalphExecutor { plan_mode: false }
    }

    /// The control directory of a worktree.
    pub fn ralph_dir(&self, worktree_path: &str) -> (r: String)
        ensures
            r@ == spec_ralph_dir(worktree_path@),
    {
        join_path(worktree_path, ".ralph-vibe-kanban")
    }

    /// The entry script in the control directory.
    pub fn loop_script_path(&self, worktree_path: &str) -> (r: String)
        ensures
            r@ == spec_loop_script_path(worktree_path@),
    {
        let dir = self.ralph_dir(worktree_path);
        join_path(dir.as_str(), "loop.sh")
    }

    /// The file in the control directory that holds the specification.
    pub fn spec_path(&self, worktree_path: &str) -> (r: String)
        ensures
            r@ == spec_spec_path(worktree_path@),
    {
        let dir = self.ralph_dir(worktree_path);
        join_path(dir.as_str(), "spec")
    }

    /// The file that a spawn writes: the specification, as it is, at the
    /// fixed place in the control directory.
    pub fn write_spec(&self, worktree_path: &str, spec: &str) -> (r: SpecFile)
        ensures
            r.path@ == spec_spec_path(worktree_path@),
            r.content@ == spec@,
    {
        SpecFile { path: self.spec_path(worktree_path), content: spec.to_owned() }
    }

    /// Whether the worktree is set up for the loop: the control directory
    /// and the entry script exist, and the script has an execute bit where
    /// permission bits were read.
    pub fn validate_setup(&self, probe: &SetupProbe) -> (r: Result<(), ExecutorError>)
        ensures
            match spec_setup_fault(*probe) {
                Some(fault) => r == Err::<(), ExecutorError>(ExecutorError::Setup(fault)),
                None => r is Ok,
            },
    {
        if !probe.control_dir_exists {
            return Err(ExecutorError::Setup(SetupError::MissingControlDirectory));
        }
        if !probe.loop_script_exists {
            return Err(ExecutorError::Setup(SetupError::MissingLoopScript));
        }
        match probe.loop_script_mode {
            Some(mode) => {
                if mode & 0o111 == 0 {
                    return Err(ExecutorError::Setup(SetupError::LoopScriptNotExecutable));
                }
            },
            None => {},
        }
        Ok(())
    }

    /// What a spawn in `current_dir` with `prompt` comes to, for a worktree
    /// in the probed state.
    pub open spec fn spawns(
        self,
        current_dir: Seq<char>,
        prompt: Seq<char>,
        vars: Seq<(Seq<char>, Seq<char>)>,
        probe: SetupProbe,
        r: Result<SpawnRequest, ExecutorError>,
    ) -> bool {
        match spec_setup_fault(probe) {
            Some(fault) => r == Err::<SpawnRequest, ExecutorError>(ExecutorError::Setup(fault)),
            None => if blank(prompt) {
                r == Err::<SpawnRequest, ExecutorError>(
                    ExecutorError::Setup(SetupError::EmptySpec),
                )
            } else {
                &&& r is Ok
                &&& r->Ok_0.spec_file.path@ == spec_spec_path(current_dir)
                &&& r->Ok_0.spec_file.content@ == prompt
                &&& r->Ok_0.command.program@ == spec_loop_script_path(current_dir)
                &&& texts(r->Ok_0.command.args@) == spec_mode_args(self.plan_mode)
                &&& r->Ok_0.command.current_dir@ == current_dir
                &&& var_texts(r->Ok_0.command.env@) == vars
                &&& r->Ok_0.command.supervised()
            },
        }
    }

    /// What spawning the loop in `current_dir` comes to. A worktree that is
    /// not set up is refused first, then a blank prompt; nothing is written
    /// or run in either case. Otherwise the prompt is written to the
    /// specification file and the entry script is run in `current_dir`,
    /// with `plan` as its argument in plan mode.
    pub fn spawn(&self, current_dir: &str, prompt: &str, env: &ExecutionEnv, probe: &SetupProbe) -> (r:
        Result<SpawnRequest, ExecutorError>)
        ensures
            self.spawns(current_dir@, prompt@, var_texts(env.vars@), *probe, r),
    {
        match self.validate_setup(probe) {
            Err(e) => {
                return Err(e);
            },
            Ok(_) => {},
        }
        if is_blank(prompt) {
            return Err(ExecutorError::Setup(SetupError::EmptySpec));
        }
        let spec_file = self.write_spec(current_dir, prompt);
        let mut args: Vec<String> = Vec::new();
        if self.plan_mode {
            args.push("plan".to_owned());
        }
        assert(texts(args@) =~= spec_mode_args(self.plan_mode));
        let command = CommandSpec {
            program: self.loop_script_path(current_dir),
            args,
            current_dir: current_dir.to_owned(),
            env: clone_vars(&env.vars),
            stdin: StdioMode::Null,
            stdout: StdioMode::Piped,
            stderr: StdioMode::Piped,
            process_group: true,
            kill_on_drop: true,
        };
        Ok(SpawnRequest { spec_file, command })
    }

    /// A follow-up is a spawn like any other: the loop knows no
    /// continuation, and the identifiers of an earlier session are not
    /// looked at.
    pub fn spawn_follow_up(
        &self,
        current_dir: &str,
        prompt: &str,
        session_id: &str,
        reset_to_message_id: Option<&str>,
        env: &ExecutionEnv,
        probe: &SetupProbe,
    ) -> (r: Result<SpawnRequest, ExecutorError>)
        ensures
            self.spawns(current_dir@, prompt@, var_texts(env.vars@), *probe, r),
    {
        self.spawn(current_dir, prompt, env, probe)
    }

    /// This executor keeps no declared auxiliary configuration.
    pub fn default_mcp_config_path(&self) -> (r: Option<String>)
        ensures
            r is None,
    {
        None
    }
}

} // verus!
