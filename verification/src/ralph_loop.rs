//! A request to run the loop script of a control directory directly.

use vstd::prelude::*;
use crate::executor::{
    clone_vars,
    var_texts,
    CommandSpec,
    ExecutionEnv,
    ExecutorError,
    SpecFile,
    StdioMode,
};
use crate::text::{decimal, join_path, prefixed, spec_decimal, spec_join_path, texts};

verus! {

/// The mode in which the loop script runs.
#[derive(Clone, Copy, Debug, PartialEq, Eq, Structural)]
pub enum RalphLoopMode {
    /// Writes the implementation plan.
    Plan,
    /// Carries the plan out.
    Build,
}

/// A request to run the loop script: where the control directory lies, the
/// task specification and the name of its file, the mode, and the greatest
/// number of iterations (0: no limit).
#[derive(Clone, Debug, PartialEq, Eq)]
pub struct RalphLoopRequest {
    pub ralph_path: String,
    pub task_spec: String,
    pub spec_filename: String,
    pub mode: RalphLoopMode,
    pub max_iterations: u32,
}

/// What running a request comes to: the specification is written into the
/// directory of specifications, which is created where it is missing; then
/// the command is run.
#[derive(Clone, Debug, PartialEq, Eq)]
pub struct LoopInvocation {
    pub specs_dir: String,
    pub spec_file: SpecFile,
    pub command: CommandSpec,
}

/// The arguments of the loop script: `plan` in plan mode, then the limit of
/// iterations where there is one.
pub open spec fn spec_loop_args(mode: RalphLoopMode, max_iterations: u32) -> Seq<Seq<char>> {
    let first = if mode == RalphLoopMode::Plan {
        seq!["plan"@]
    } else {
        Seq::empty()
    };
    if max_iterations > 0 {
        first.push(spec_decimal(max_iterations as nat))
    } else {
        first
    }
}

impl RalphLoopRequest {
    /// A request in plan mode, limited to five iterations.
    pub fn new_plan(ralph_path: String, task_spec: String, spec_filename: String) -> (r: Self)
        ensures
            r.ralph_path == ralph_path,
            r.task_spec == task_spec,
            r.spec_filename == spec_filename,
            r.mode == RalphLoopMode::Plan,
            r.max_iterations == 5,
    {
        RalphLoopRequest {
            ralph_path,
            task_spec,
            spec_filename,
            mode: RalphLoopMode::Plan,
            max_iterations: 5,
        }
    }

    /// A request in build mode, without a limit of iterations.
    pub fn new_build(ralph_path: String, task_spec: String, spec_filename: String) -> (r: Self)
        ensures
            r.ralph_path == ralph_path,
            r.task_spec == task_spec,
            r.spec_filename == spec_filename,
            r.mode == RalphLoopMode::Build,
            r.max_iterations == 0,
    {
        RalphLoopRequest {
            ralph_path,
            task_spec,
            spec_filename,
            mode: RalphLoopMode::Build,
            max_iterations: 0,
        }
    }

    pub open spec fn spec_specs_dir(self) -> Seq<char> {
        spec_join_path(self.ralph_path@, "specs"@)
    }

    pub open spec fn spec_spec_path(self) -> Seq<char> {
        spec_join_path(self.spec_specs_dir(), self.spec_filename@ + ".md"@)
    }

    pub open spec fn spec_loop_script(self) -> Seq<char> {
        spec_join_path(self.ralph_path@, "loop.sh"@)
    }

    /// The loop script of the control directory.
    pub fn loop_script(&self) -> (r: String)
        ensures
            r@ == self.spec_loop_script(),
    {
        join_path(self.ralph_path.as_str(), "loop.sh")
    }

    /// The arguments that the script is run with.
    pub fn args(&self) -> (r: Vec<String>)
        ensures
            texts(r@) == spec_loop_args(self.mode, self.max_iterations),
    {
        let mut out: Vec<String> = Vec::new();
        match self.mode {
            RalphLoopMode::Plan => {
                out.push("plan".to_owned());
            },
            RalphLoopMode::Build => {},
        }
        if self.max_iterations > 0 {
            out.push(decimal(self.max_iterations as u64));
        }
        assert(texts(out@) =~= spec_loop_args(self.mode, self.max_iterations));
        out
    }

    /// What running the request in `current_dir` comes to, given whether
    /// the loop script exists. Without the script the request is refused
    /// before anything is done: no directory is created, no file written
    /// and no process run.
    pub fn spawn(&self, current_dir: &str, env: &ExecutionEnv, loop_script_exists: bool) -> (r:
        Result<LoopInvocation, ExecutorError>)
        ensures
            !loop_script_exists ==> r is Err && r->Err_0 is ExecutableNotFound
                && r->Err_0->ExecutableNotFound_program@ == self.spec_loop_script(),
            loop_script_exists ==> {
                &&& r is Ok
                &&& r->Ok_0.specs_dir@ == self.spec_specs_dir()
                &&& r->Ok_0.spec_file.path@ == self.spec_spec_path()
                &&& r->Ok_0.spec_file.content@ == self.task_spec@
                &&& r->Ok_0.command.program@ == self.spec_loop_script()
                &&& texts(r->Ok_0.command.args@) == spec_loop_args(self.mode, self.max_iterations)
                &&& r->Ok_0.command.current_dir@ == current_dir@
                &&& var_texts(r->Ok_0.command.env@) == var_texts(env.vars@)
                &&& r->Ok_0.command.supervised()
            },
    {
        let program = self.loop_script();
        if !loop_script_exists {
            return Err(ExecutorError::ExecutableNotFound { program });
        }
        let specs_dir = join_path(self.ralph_path.as_str(), "specs");
        let file_name = prefixed(self.spec_filename.as_str(), ".md");
        let spec_file = SpecFile {
            path: join_path(specs_dir.as_str(), file_name.as_str()),
            content: self.task_spec.clone(),
        };
        let command = CommandSpec {
            program,
            args: self.args(),
            current_dir: current_dir.to_owned(),
            env: clone_vars(&env.vars),
            stdin: StdioMode::Null,
            stdout: StdioMode::Piped,
            stderr: StdioMode::Piped,
            process_group: true,
            kill_on_drop: true,
        };
        Ok(LoopInvocation { specs_dir, spec_file, command })
    }
}

} // verus!
