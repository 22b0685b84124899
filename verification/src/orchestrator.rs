//! The top-level control flow of one wrapper invocation, as a step
//! machine: run the pre hook when one resolved, then the real tool with
//! the original arguments, then the post hook when one resolved — the
//! post hook runs even when the tool failed — and exit with the code the
//! tool's outcome determines. The machine only decides; its caller
//! performs each action and feeds the observation back as the next
//! event.

use vstd::prelude::*;
use crate::outcome::ProcessOutcome;
use crate::outcome::wrapper_code_spec;
use crate::outcome::wrapper_exit_code;

verus! {

/// Where one wrapper invocation stands.
#[derive(Clone, Copy, Debug, PartialEq, Eq, Structural)]
pub enum Stage {
    /// Hooks are resolved; nothing has run yet.
    AtStart,
    /// The pre hook is running.
    PreRunning,
    /// The real tool is running.
    MainRunning,
    /// The post hook is running.
    PostRunning,
    /// The invocation is over.
    Finished,
}

/// What the caller must do next. Hook runs go through the hook-run
/// machine on the hook resolved earlier; the real tool is spawned with
/// the original, unmodified argument list and inherited stdio.
#[derive(Clone, Copy, Debug, PartialEq, Eq, Structural)]
pub enum OrchAction {
    /// Run the resolved pre hook.
    RunPreHook,
    /// Spawn the real tool and wait for it.
    RunTool,
    /// Run the resolved post hook.
    RunPostHook,
    /// Terminate the wrapper's process with this exit code.
    ExitWith { code: i32 },
}

/// What the caller observed after performing the previous action.
#[derive(Clone, Copy, Debug, PartialEq, Eq, Structural)]
pub enum OrchEvent {
    /// Nothing yet: ask for the first action.
    Start,
    /// A hook run finished; `fatal` is what its `Finish` action carried.
    HookFinished { fatal: bool },
    /// The real tool was spawned and waited on, with this outcome.
    ToolFinished { outcome: ProcessOutcome },
}

/// The state of one wrapper invocation.
#[derive(Clone, Copy, Debug, PartialEq, Eq, Structural)]
pub struct Orchestrator {
    /// Whether a pre hook resolved.
    pub has_pre: bool,
    /// Whether a post hook resolved.
    pub has_post: bool,
    /// Where the invocation stands.
    pub stage: Stage,
    /// The exit code the real tool's outcome determined; meaningful once
    /// the tool has finished.
    pub exit_code: i32,
}

/// The transition table of one wrapper invocation. A fatal hook stage or
/// a tool that could not be spawned exits with code 1 at once; a tool
/// that ran hands its own code (1 when a signal left none) to the final
/// exit, with the post hook still run in between.
pub open spec fn orch_step_spec(s: Orchestrator, e: OrchEvent) -> (Orchestrator, OrchAction) {
    match s.stage {
        Stage::AtStart => if s.has_pre {
            (Orchestrator { stage: Stage::PreRunning, ..s }, OrchAction::RunPreHook)
        } else {
            (Orchestrator { stage: Stage::MainRunning, ..s }, OrchAction::RunTool)
        },
        Stage::PreRunning => if e == (OrchEvent::HookFinished { fatal: true }) {
            (
                Orchestrator { stage: Stage::Finished, exit_code: 1i32, ..s },
                OrchAction::ExitWith { code: 1i32 },
            )
        } else {
            (Orchestrator { stage: Stage::MainRunning, ..s }, OrchAction::RunTool)
        },
        Stage::MainRunning => match e {
            OrchEvent::ToolFinished { outcome } => if outcome is SpawnFailed {
                (
                    Orchestrator { stage: Stage::Finished, exit_code: 1i32, ..s },
                    OrchAction::ExitWith { code: 1i32 },
                )
            } else {
                let code = wrapper_code_spec(outcome);
                if s.has_post {
                    (
                        Orchestrator { stage: Stage::PostRunning, exit_code: code, ..s },
                        OrchAction::RunPostHook,
                    )
                } else {
                    (
                        Orchestrator { stage: Stage::Finished, exit_code: code, ..s },
                        OrchAction::ExitWith { code },
                    )
                }
            },
            _ => (s, OrchAction::ExitWith { code: s.exit_code }),
        },
        Stage::PostRunning => if e == (OrchEvent::HookFinished { fatal: true }) {
            (
                Orchestrator { stage: Stage::Finished, exit_code: 1i32, ..s },
                OrchAction::ExitWith { code: 1i32 },
            )
        } else {
            (
                Orchestrator { stage: Stage::Finished, ..s },
                OrchAction::ExitWith { code: s.exit_code },
            )
        },
        Stage::Finished => (s, OrchAction::ExitWith { code: s.exit_code }),
    }
}

impl Orchestrator {
    /// The event that fits each stage.
    pub open spec fn event_fits(self, e: OrchEvent) -> bool {
        match self.stage {
            Stage::AtStart => e is Start,
            Stage::PreRunning => e matches OrchEvent::HookFinished { .. },
            Stage::MainRunning => e matches OrchEvent::ToolFinished { .. },
            Stage::PostRunning => e matches OrchEvent::HookFinished { .. },
            Stage::Finished => false,
        }
    }

    /// A fresh invocation, from the hook resolution's outcome.
    pub fn new(has_pre: bool, has_post: bool) -> (s: Orchestrator)
        ensures
            s == (Orchestrator { has_pre, has_post, stage: Stage::AtStart, exit_code: 0i32 }),
    {
        Orchestrator { has_pre, has_post, stage: Stage::AtStart, exit_code: 0i32 }
    }

    /// Advances the invocation by one observed event and names the next
    /// action.
    pub fn step(&self, e: &OrchEvent) -> (r: (Orchestrator, OrchAction))
        requires
            self.event_fits(*e),
        ensures
            r == orch_step_spec(*self, *e),
    {
        let s: Orchestrator = *self;
        match s.stage {
            Stage::AtStart => if s.has_pre {
                (Orchestrator { stage: Stage::PreRunning, ..s }, OrchAction::RunPreHook)
            } else {
                (Orchestrator { stage: Stage::MainRunning, ..s }, OrchAction::RunTool)
            },
            Stage::PreRunning => match e {
                OrchEvent::HookFinished { fatal: true } => (
                    Orchestrator { stage: Stage::Finished, exit_code: 1, ..s },
                    OrchAction::ExitWith { code: 1 },
                ),
                _ => (Orchestrator { stage: Stage::MainRunning, ..s }, OrchAction::RunTool),
            },
            Stage::MainRunning => match e {
                OrchEvent::ToolFinished { outcome } => match outcome {
                    ProcessOutcome::SpawnFailed => (
                        Orchestrator { stage: Stage::Finished, exit_code: 1, ..s },
                        OrchAction::ExitWith { code: 1 },
                    ),
                    _ => {
                        let code: i32 = wrapper_exit_code(outcome);
                        if s.has_post {
                            (
                                Orchestrator { stage: Stage::PostRunning, exit_code: code, ..s },
                                OrchAction::RunPostHook,
                            )
                        } else {
                            (
                                Orchestrator { stage: Stage::Finished, exit_code: code, ..s },
                                OrchAction::ExitWith { code },
                            )
                        }
                    },
                },
                _ => (s, OrchAction::ExitWith { code: s.exit_code }),
            },
            Stage::PostRunning => match e {
                OrchEvent::HookFinished { fatal: true } => (
                    Orchestrator { stage: Stage::Finished, exit_code: 1, ..s },
                    OrchAction::ExitWith { code: 1 },
                ),
                _ => (
                    Orchestrator { stage: Stage::Finished, ..s },
                    OrchAction::ExitWith { code: s.exit_code },
                ),
            },
            Stage::Finished => (s, OrchAction::ExitWith { code: s.exit_code }),
        }
    }
}

/// With no hooks resolved the wrapper adds nothing: the machine asks for
/// exactly one action before the tool — running it — and, once the tool
/// finishes, exits with the code the central mapping gives that outcome.
/// No hook action ever appears.
pub proof fn lemma_no_hooks_passthrough(o: ProcessOutcome)
    ensures
        ({
            let s0 = Orchestrator {
                has_pre: false,
                has_post: false,
                stage: Stage::AtStart,
                exit_code: 0i32,
            };
            let (s1, a1) = orch_step_spec(s0, OrchEvent::Start);
            let (s2, a2) = orch_step_spec(s1, OrchEvent::ToolFinished { outcome: o });
            &&& a1 is RunTool
            &&& a2 == (OrchAction::ExitWith { code: wrapper_code_spec(o) })
            &&& s2.stage is Finished
            &&& !(a1 is RunPreHook) && !(a1 is RunPostHook) && !(a2 is RunPreHook) && !(a2
                is RunPostHook)
        }),
{
}

/// Two invocations with no hooks are independent and interchangeable:
/// the machine is a pure function of its inputs, so each run makes the
/// decisions of `lemma_no_hooks_passthrough` on its own, and runs whose
/// tools end alike decide exactly alike.
pub proof fn lemma_no_hooks_idempotent(o1: ProcessOutcome, o2: ProcessOutcome)
    ensures
        ({
            let s0 = Orchestrator {
                has_pre: false,
                has_post: false,
                stage: Stage::AtStart,
                exit_code: 0i32,
            };
            let first = orch_step_spec(
                orch_step_spec(s0, OrchEvent::Start).0,
                OrchEvent::ToolFinished { outcome: o1 },
            );
            let second = orch_step_spec(
                orch_step_spec(s0, OrchEvent::Start).0,
                OrchEvent::ToolFinished { outcome: o2 },
            );
            &&& orch_step_spec(s0, OrchEvent::Start).1 is RunTool
            &&& first.1 == (OrchAction::ExitWith { code: wrapper_code_spec(o1) })
            &&& second.1 == (OrchAction::ExitWith { code: wrapper_code_spec(o2) })
            &&& (o1 == o2 ==> first == second)
        }),
{
}

/// With a pre hook resolved, the machine runs it strictly before the
/// real tool: the first action is the pre hook's run, no tool action
/// precedes it, and for every non-fatal pre result — whatever exit code
/// the hook itself reported — the very next action runs the tool.
pub proof fn lemma_pre_hook_runs_first(has_post: bool)
    ensures
        ({
            let s0 = Orchestrator {
                has_pre: true,
                has_post,
                stage: Stage::AtStart,
                exit_code: 0i32,
            };
            let (s1, a1) = orch_step_spec(s0, OrchEvent::Start);
            let (s2, a2) = orch_step_spec(s1, OrchEvent::HookFinished { fatal: false });
            &&& a1 is RunPreHook
            &&& s1.stage is PreRunning
            &&& a2 is RunTool
            &&& s2.stage is MainRunning
        }),
{
}

/// With a post hook resolved, the hook runs even when the real tool
/// failed, and the wrapper's final exit code is the tool's, not the
/// hook's: for every tool outcome short of a spawn failure the machine
/// asks for the post hook next, and a non-fatal post result leaves the
/// tool's code untouched.
pub proof fn lemma_post_hook_after_failure(has_pre: bool, o: ProcessOutcome)
    requires
        !(o is SpawnFailed),
    ensures
        ({
            let s = Orchestrator {
                has_pre,
                has_post: true,
                stage: Stage::MainRunning,
                exit_code: 0i32,
            };
            let (s1, a1) = orch_step_spec(s, OrchEvent::ToolFinished { outcome: o });
            let (s2, a2) = orch_step_spec(s1, OrchEvent::HookFinished { fatal: false });
            &&& a1 is RunPostHook
            &&& s1.stage is PostRunning
            &&& s1.exit_code == wrapper_code_spec(o)
            &&& a2 == (OrchAction::ExitWith { code: wrapper_code_spec(o) })
            &&& s2.stage is Finished
        }),
{
}

} // verus!
