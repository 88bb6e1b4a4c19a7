//! The cargo gates run after every change: format check (fixed when
//! allowed), then `check` in fast mode or `clippy`, `test` and `build` in
//! full mode. A state machine decides; the caller runs the steps.

use vstd::prelude::*;
use vstd::string::*;
use crate::text::{
    concat2, concat3, contains_str, has_substr, join, join_strings, lower_seq, opt_view,
    push_owned, str_eq, string_views, to_ascii_lowercase,
};
use crate::tools::{tool_error, ToolError};

verus! {

#[derive(Clone, Copy, Debug, PartialEq, Eq, Structural)]
pub enum GatesMode {
    Fast,
    Full,
}

/// The gates mode a setting selects: `full` or `strict` (in any case) for
/// full, `fast` for fast, otherwise the default.
pub open spec fn gates_mode_for(setting: Option<Seq<char>>, default_fast: bool) -> GatesMode {
    let fallback = if default_fast {
        GatesMode::Fast
    } else {
        GatesMode::Full
    };
    match setting {
        Some(v) => {
            let l = lower_seq(v);
            if l == "full"@ || l == "strict"@ {
                GatesMode::Full
            } else if l == "fast"@ {
                GatesMode::Fast
            } else {
                fallback
            }
        },
        None => fallback,
    }
}

impl GatesMode {
    /// The mode from the value of the gates-mode variable.
    pub fn from_setting(setting: &Option<String>, default_fast: bool) -> (r: GatesMode)
        ensures
            r == gates_mode_for(opt_view(*setting), default_fast),
    {
        let fallback = if default_fast {
            GatesMode::Fast
        } else {
            GatesMode::Full
        };
        match setting {
            Some(v) => {
                let l = to_ascii_lowercase(v.as_str());
                if str_eq(l.as_str(), "full") || str_eq(l.as_str(), "strict") {
                    GatesMode::Full
                } else if str_eq(l.as_str(), "fast") {
                    GatesMode::Fast
                } else {
                    fallback
                }
            },
            None => fallback,
        }
    }

    pub fn is_full(self) -> (r: bool)
        ensures
            r == (self == GatesMode::Full),
    {
        match self {
            GatesMode::Full => true,
            GatesMode::Fast => false,
        }
    }
}

/// Whether `run_cargo` defaults to fast mode: when the task is a
/// self-improvement task.
pub open spec fn self_improve_task_text(task: Seq<char>) -> bool {
    let l = lower_seq(task);
    has_substr(l, "self-improve"@) || has_substr(l, "self improve"@) || has_substr(
        l,
        "self_improve"@,
    )
}

pub fn run_cargo_default_fast(task: &str) -> (r: bool)
    ensures
        r == self_improve_task_text(task@),
{
    let l = to_ascii_lowercase(task);
    contains_str(l.as_str(), "self-improve") || contains_str(l.as_str(), "self improve")
        || contains_str(l.as_str(), "self_improve")
}

#[derive(Clone, Copy, Debug, PartialEq, Eq, Structural)]
pub enum CargoStep {
    FmtCheck,
    Fmt,
    Check,
    Clippy,
    Test,
    Build,
}

/// The cargo arguments of a step.
pub open spec fn step_args(s: CargoStep) -> Seq<Seq<char>> {
    match s {
        CargoStep::FmtCheck => seq!["fmt"@, "--check"@],
        CargoStep::Fmt => seq!["fmt"@],
        CargoStep::Check => seq!["check"@],
        CargoStep::Clippy => seq!["clippy"@, "--"@, "-D"@, "warnings"@],
        CargoStep::Test => seq!["test"@],
        CargoStep::Build => seq!["build"@],
    }
}

pub fn cargo_args(s: CargoStep) -> (r: Vec<String>)
    ensures
        string_views(r@) == step_args(s),
{
    let mut v: Vec<String> = Vec::new();
    match s {
        CargoStep::FmtCheck => {
            push_owned(&mut v, "fmt");
            push_owned(&mut v, "--check");
        },
        CargoStep::Fmt => {
            push_owned(&mut v, "fmt");
        },
        CargoStep::Check => {
            push_owned(&mut v, "check");
        },
        CargoStep::Clippy => {
            push_owned(&mut v, "clippy");
            push_owned(&mut v, "--");
            push_owned(&mut v, "-D");
            push_owned(&mut v, "warnings");
        },
        CargoStep::Test => {
            push_owned(&mut v, "test");
        },
        CargoStep::Build => {
            push_owned(&mut v, "build");
        },
    }
    assert(string_views(v@) =~= step_args(s));
    v
}

/// The error of a failed step: the command and what it wrote to stderr.
pub fn step_failure_message(s: CargoStep, stderr: &str) -> (r: String)
    ensures
        r@ == "cargo "@ + join(step_args(s), " "@) + " failed\n"@ + stderr@,
{
    let args = cargo_args(s);
    let joined = join_strings(&args, " ");
    let mut r = concat3("cargo ", joined.as_str(), " failed\n");
    r.append(stderr);
    r
}

/// The first gate after formatting.
pub open spec fn first_gate(mode: GatesMode) -> CargoStep {
    match mode {
        GatesMode::Fast => CargoStep::Check,
        GatesMode::Full => CargoStep::Clippy,
    }
}

/// What follows a step.
#[derive(Clone, Copy, Debug, PartialEq, Eq, Structural)]
pub enum GateOutcome {
    /// Run this step next.
    Next(CargoStep),
    /// Log the format failure, then run `cargo fmt`.
    FixFormat,
    /// All gates passed.
    Pass,
    /// The gates failed with the step's error.
    Fail,
}

pub open spec fn gate_decision(step: CargoStep, ok: bool, auto_fix: bool, mode: GatesMode) -> GateOutcome {
    match step {
        CargoStep::FmtCheck => if ok {
            GateOutcome::Next(first_gate(mode))
        } else if auto_fix {
            GateOutcome::FixFormat
        } else {
            GateOutcome::Fail
        },
        CargoStep::Fmt => if ok {
            GateOutcome::Next(first_gate(mode))
        } else {
            GateOutcome::Fail
        },
        CargoStep::Check => if ok {
            GateOutcome::Pass
        } else {
            GateOutcome::Fail
        },
        CargoStep::Clippy => if ok {
            GateOutcome::Next(CargoStep::Test)
        } else {
            GateOutcome::Fail
        },
        CargoStep::Test => if ok {
            GateOutcome::Next(CargoStep::Build)
        } else {
            GateOutcome::Fail
        },
        CargoStep::Build => if ok {
            GateOutcome::Pass
        } else {
            GateOutcome::Fail
        },
    }
}

/// What the caller does next.
#[derive(Debug)]
pub enum GateAction {
    Run(CargoStep),
    LogThenRun(String, CargoStep),
    Finish(Result<String, ToolError>),
}

/// A run of the gates, for the change made by `reason`.
#[derive(Debug)]
pub struct CargoGates {
    pub reason: String,
    pub auto_fix: bool,
    pub mode: GatesMode,
    /// The step whose result is awaited.
    pub current: CargoStep,
}

impl CargoGates {
    /// The gates start with the format check.
    pub fn start(reason: String, auto_fix: bool, mode: GatesMode) -> (r: CargoGates)
        ensures
            r.reason == reason,
            r.auto_fix == auto_fix,
            r.mode == mode,
            r.current == CargoStep::FmtCheck,
    {
        CargoGates { reason, auto_fix, mode, current: CargoStep::FmtCheck }
    }

    /// Takes the result of the current step (its error text when it failed)
    /// and says what comes next.
    pub fn on_result(&mut self, result: Result<(), String>) -> (r: GateAction)
        ensures
            final(self).reason == old(self).reason,
            final(self).auto_fix == old(self).auto_fix,
            final(self).mode == old(self).mode,
            match gate_decision(old(self).current, result is Ok, old(self).auto_fix, old(self).mode) {
                GateOutcome::Next(s) => r matches GateAction::Run(x) && x == s && final(self).current
                    == s,
                GateOutcome::FixFormat => r matches GateAction::LogThenRun(line, s) && s
                    == CargoStep::Fmt && final(self).current == CargoStep::Fmt && line@
                    == "cargo fmt check failed during "@ + old(self).reason@ + ": "@ + result->Err_0@,
                GateOutcome::Pass => r matches GateAction::Finish(Ok(t)) && t@ == "run_cargo ok: "@
                    + old(self).reason@,
                GateOutcome::Fail => r matches GateAction::Finish(Err(e)) && e.message
                    == result->Err_0,
            },
    {
        let first = match self.mode {
            GatesMode::Fast => CargoStep::Check,
            GatesMode::Full => CargoStep::Clippy,
        };
        match result {
            Ok(()) => {
                let next = match self.current {
                    CargoStep::FmtCheck => Some(first),
                    CargoStep::Fmt => Some(first),
                    CargoStep::Check => None,
                    CargoStep::Clippy => Some(CargoStep::Test),
                    CargoStep::Test => Some(CargoStep::Build),
                    CargoStep::Build => None,
                };
                match next {
                    Some(s) => {
                        self.current = s;
                        GateAction::Run(s)
                    },
                    None => GateAction::Finish(Ok(concat2("run_cargo ok: ", self.reason.as_str()))),
                }
            },
            Err(e) => {
                if self.current == CargoStep::FmtCheck && self.auto_fix {
                    let mut line = concat3(
                        "cargo fmt check failed during ",
                        self.reason.as_str(),
                        ": ",
                    );
                    line.append(e.as_str());
                    self.current = CargoStep::Fmt;
                    GateAction::LogThenRun(line, CargoStep::Fmt)
                } else {
                    GateAction::Finish(Err(tool_error(e)))
                }
            },
        }
    }
}

/// The gates pass only when `check` or `build` succeeded, and each mode runs
/// only its own gates: from the format steps on, fast mode never reaches
/// `clippy`, `test` or `build`, and full mode never `check`. A failure ends
/// the run, except a failed format check that may be fixed.
pub proof fn gates_follow_mode(step: CargoStep, ok: bool, auto_fix: bool, mode: GatesMode)
    ensures
        gate_decision(step, ok, auto_fix, mode) == GateOutcome::Pass ==> ok && (step
            == CargoStep::Check || step == CargoStep::Build),
        (mode == GatesMode::Fast && step != CargoStep::Clippy && step != CargoStep::Test) ==> match gate_decision(
            step,
            ok,
            auto_fix,
            mode,
        ) {
            GateOutcome::Next(s) => s == CargoStep::Check,
            _ => true,
        },
        (mode == GatesMode::Full && step != CargoStep::Check) ==> match gate_decision(
            step,
            ok,
            auto_fix,
            mode,
        ) {
            GateOutcome::Next(s) => s == CargoStep::Clippy || s == CargoStep::Test || s
                == CargoStep::Build,
            _ => true,
        },
        !ok ==> gate_decision(step, ok, auto_fix, mode) == GateOutcome::Fail || (step
            == CargoStep::FmtCheck && auto_fix),
{
}

} // verus!
