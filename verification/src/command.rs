//! How the standard streams of a child process are set up, and what is done
//! with its input once it runs.

use vstd::prelude::*;

verus! {

/// What one standard stream of a child process is connected to.
#[derive(Clone, Copy, Debug, PartialEq, Eq, Structural)]
pub enum StreamSetup {
    /// Left as the system sets it.
    Unset,
    /// A pipe to the parent.
    Piped,
    /// The parent's own stream.
    Inherited,
}

/// The three standard streams of a child process.
#[derive(Clone, Copy, Debug, PartialEq, Eq, Structural)]
pub struct StreamPlan {
    pub stdin: StreamSetup,
    pub stdout: StreamSetup,
    pub stderr: StreamSetup,
}

/// The streams of a child whose output is collected: output and errors are
/// piped, and input is piped exactly when there is input to give.
pub fn capture_plan(has_input: bool) -> (plan: StreamPlan)
    ensures
        plan.stdin == if has_input {
            StreamSetup::Piped
        } else {
            StreamSetup::Unset
        },
        plan.stdout == StreamSetup::Piped,
        plan.stderr == StreamSetup::Piped,
{
    StreamPlan {
        stdin: if has_input {
            StreamSetup::Piped
        } else {
            StreamSetup::Unset
        },
        stdout: StreamSetup::Piped,
        stderr: StreamSetup::Piped,
    }
}

/// The streams of a child that shares the parent's terminal: all three are
/// the parent's own.
pub fn inherit_plan() -> (plan: StreamPlan)
    ensures
        plan == (StreamPlan {
            stdin: StreamSetup::Inherited,
            stdout: StreamSetup::Inherited,
            stderr: StreamSetup::Inherited,
        }),
{
    StreamPlan {
        stdin: StreamSetup::Inherited,
        stdout: StreamSetup::Inherited,
        stderr: StreamSetup::Inherited,
    }
}

/// What to do about the child's input once it has started.
#[derive(Clone, Copy, Debug, PartialEq, Eq, Structural)]
pub enum InputStep {
    /// There is nothing to give: go on to wait for the child.
    Skip,
    /// Write the input to the child, then close its input.
    Write,
    /// There is input but nowhere to write it: give up.
    Fail,
}

/// Decides what to do about the child's input: write it if there is any and
/// the child's input can be had, fail if there is some and it cannot, and
/// skip if there is none.
pub fn input_step(has_input: bool, has_handle: bool) -> (step: InputStep)
    ensures
        !has_input ==> step == InputStep::Skip,
        has_input && has_handle ==> step == InputStep::Write,
        has_input && !has_handle ==> step == InputStep::Fail,
{
    if !has_input {
        InputStep::Skip
    } else if has_handle {
        InputStep::Write
    } else {
        InputStep::Fail
    }
}

} // verus!
