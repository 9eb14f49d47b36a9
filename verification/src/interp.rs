//! The command interpreter: one line of operator text becomes at most one
//! control action, and the resulting state transition is handed back for
//! rendering.

use vstd::prelude::*;

use crate::ProcessState;
use crate::command::Command;
use crate::command::CommandKind;
use crate::command::parse_command;
use crate::command::parse_spec;
use crate::command::spec_tokens;
use crate::command::spec_trim;
use crate::command::split_whitespace;
use crate::command::trim_str;
use crate::errors::FdbError;
use crate::errors::FdbResult;
use crate::process::ProcessHandle;

verus! {

/// What the frontend should render after a dispatched command.
#[derive(Debug, Clone, Copy, PartialEq, Eq, Structural)]
pub enum Reaction {
    /// The lifecycle state observed after a continue.
    Status(ProcessState),
    /// Pid and current lifecycle state, on request.
    ProcessInfo(i32, ProcessState),
    /// The command summary was asked for.
    Help,
    /// The session should end.
    Quit,
    /// The line recognized no command.
    Unknown,
}

/// How dispatching a command of kind `k` relates the handle before (`pre`)
/// and after (`post`) to the result `r`: informational commands leave the
/// handle alone; a continue pairs one resume with exactly one wait, rejects
/// terminal states, and never reports `Running` on success.
pub open spec fn dispatch_post(
    k: CommandKind,
    pre: ProcessHandle,
    post: ProcessHandle,
    r: FdbResult<Reaction>,
) -> bool {
    &&& post.spec_pid() == pre.spec_pid()
    &&& match k {
        CommandKind::Help => r == Ok::<Reaction, FdbError>(Reaction::Help) && post == pre,
        CommandKind::Info => r == Ok::<Reaction, FdbError>(
            Reaction::ProcessInfo(pre.spec_pid(), pre.spec_state()),
        ) && post == pre,
        CommandKind::Quit => r == Ok::<Reaction, FdbError>(Reaction::Quit) && post == pre,
        CommandKind::Unknown => r == Ok::<Reaction, FdbError>(Reaction::Unknown) && post == pre,
        CommandKind::Continue => {
            &&& pre.spec_state().is_terminal() ==> r == Err::<Reaction, FdbError>(
                FdbError::NoSuchProcess,
            ) && post == pre
            &&& !pre.spec_state().is_terminal() ==> {
                &&& (r matches Ok(res) ==> res matches Reaction::Status(st)
                    && st == post.spec_state() && (st is Stopped || st is Exited
                    || st is Terminated))
                &&& (r matches Err(e) ==> e matches FdbError::SysCall(_) && (post == pre
                    || post.spec_state() == ProcessState::Running))
            }
        },
    }
}

/// Dispatch one parsed command against the process controller.
///
/// The continue command is compound: it issues a resume and then exactly
/// one blocking wait, and reports the state that wait resolved to.
pub fn dispatch(p: &mut ProcessHandle, cmd: &Command) -> (r: FdbResult<Reaction>)
    ensures
        dispatch_post(cmd.kind(), *old(p), *final(p), r),
{
    match cmd {
        Command::Help => Ok(Reaction::Help),
        Command::Info => Ok(Reaction::ProcessInfo(p.pid(), p.state())),
        Command::Quit => Ok(Reaction::Quit),
        Command::Unknown(_) => Ok(Reaction::Unknown),
        Command::Continue => match p.resume() {
            Err(e) => Err(e),
            Ok(()) => match p.wait_on_signal() {
                Err(e) => Err(e),
                Ok(st) => Ok(Reaction::Status(st)),
            },
        },
    }
}

/// The text a line makes the interpreter execute: a line with a token is
/// executed as its trimmed text (which becomes the new last command); an
/// empty or whitespace-only line repeats the last executed command, or
/// nothing when none exists yet.
pub open spec fn effective_line(last: Option<Seq<char>>, line: Seq<char>) -> Option<Seq<char>> {
    if spec_tokens(line).len() > 0 {
        Some(spec_trim(line))
    } else {
        last
    }
}

/// What one interpreter step produced.
#[derive(Debug, Clone, Copy, PartialEq, Eq)]
pub struct StepOutcome {
    /// The dispatched command's result, or nothing when the line was a
    /// no-op.
    pub response: Option<FdbResult<Reaction>>,
    /// Whether a quit command asked the session loop to end.
    pub quit: bool,
}

/// The read-eval loop's state: the last executed non-empty command, kept to
/// support repeat-on-empty-input.
pub struct Interpreter {
    last_cmd: Option<String>,
}

impl Interpreter {
    /// The last executed command text, if any.
    pub closed spec fn spec_last(self) -> Option<Seq<char>> {
        match self.last_cmd {
            Option::Some(s) => Option::Some(s@),
            Option::None => Option::None,
        }
    }

    /// A fresh interpreter has no command to repeat.
    pub fn new() -> (r: Interpreter)
        ensures
            r.spec_last() is None,
    {
        Interpreter { last_cmd: None }
    }

    /// Resolve one raw line to the text to execute, recording the trimmed
    /// text of a line that holds a token as the new last command,
    /// regardless of what its dispatch will later produce.
    pub fn resolve_line(&mut self, line: &str) -> (r: Option<String>)
        ensures
            final(self).spec_last() == effective_line(old(self).spec_last(), line@),
            match effective_line(old(self).spec_last(), line@) {
                Option::Some(eff) => r matches Some(s) && s@ == eff,
                Option::None => r is None,
            },
    {
        let toks = split_whitespace(line);
        if toks.len() > 0 {
            proof {
                assert(toks.deep_view().len() == toks@.len());
            }
            let trimmed = trim_str(line);
            self.last_cmd = Some(trimmed.clone());
            Some(trimmed)
        } else {
            proof {
                assert(toks.deep_view().len() == toks@.len());
            }
            match &self.last_cmd {
                None => None,
                Some(prev) => Some(prev.clone()),
            }
        }
    }

    /// Run one full loop iteration on a line of input: resolve it, parse
    /// the resulting text, dispatch the command, and say whether the
    /// session should end.
    pub fn step(&mut self, p: &mut ProcessHandle, line: &str) -> (r: StepOutcome)
        ensures
            final(self).spec_last() == effective_line(old(self).spec_last(), line@),
            match effective_line(old(self).spec_last(), line@) {
                Option::None => r.response is None && !r.quit && *final(p) == *old(p),
                Option::Some(eff) => {
                    &&& r.response matches Some(resp) && dispatch_post(
                        parse_spec(eff),
                        *old(p),
                        *final(p),
                        resp,
                    )
                    &&& r.quit == (parse_spec(eff) is Quit)
                },
            },
    {
        match self.resolve_line(line) {
            None => StepOutcome { response: None, quit: false },
            Some(text) => {
                let cmd = parse_command(text.as_str());
                let quit = matches!(cmd, Command::Quit);
                let resp = dispatch(p, &cmd);
                StepOutcome { response: Some(resp), quit }
            },
        }
    }
}

} // verus!
