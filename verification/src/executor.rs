//! Running one resolved hook: planning how it is built and run, and the
//! step machine that drives one run. A hook that is already executable
//! runs directly; a source hook with a project manifest beside it runs
//! through the real tool's own run facility; a source hook on its own is
//! compiled standalone into a scratch directory under the build-artifact
//! tree, run from there, and the scratch directory is removed afterwards
//! whatever the run's outcome.
//!
//! The machine only decides; its caller performs each returned action
//! (spawn, create, remove) and feeds the observation back as the next
//! event.

use vstd::prelude::*;
use crate::outcome::ProcessOutcome;
use crate::outcome::hook_fatal_spec;
use crate::paths::base_name;
use crate::paths::is_source_path;
use crate::paths::joined;
use crate::paths::join_path;
use crate::paths::manifest_beside;
use crate::paths::path_is_source;
use crate::paths::sibling_manifest;
use crate::paths::source_stem;
use crate::paths::stem_of;

verus! {

/// How a resolved hook is to be run.
#[derive(Clone, Debug)]
pub enum HookPlan {
    /// The hook is already executable: run it directly.
    RunDirect { program: String },
    /// The hook is a source file with a project manifest beside it: the
    /// real tool's run facility builds and runs the named binary from
    /// that manifest, with its error stream suppressed.
    ProjectRun { tool: String, manifest: String, bin: String },
    /// The hook is a source file on its own: compile it standalone into
    /// `scratch_dir`, run the compiled `output`, and remove the scratch
    /// directory afterwards.
    ScratchRun { source: String, scratch_dir: String, output: String },
}

/// The scratch directory a standalone source hook builds in: a directory
/// named after the hook's binary inside the hooks area of the
/// build-artifact tree, so each hook's run owns its directory alone.
pub open spec fn scratch_dir_spec(target_dir: Seq<char>, bin: Seq<char>) -> Seq<char> {
    joined(joined(target_dir, "prepost"@), bin)
}

/// The build-artifact directory assumed when the metadata query for the
/// real one fails.
pub fn default_target_dir() -> (r: String)
    ensures
        r@ == "./target"@,
{
    "./target".to_owned()
}

/// Plans how the hook at `hook_path` is run: directly when it is not a
/// source file; through the real tool's run facility when a manifest
/// sits beside it; otherwise by standalone compilation into a scratch
/// directory under `target_dir`. `manifest_exists` reports whether the
/// sibling manifest computed by `manifest_beside` exists as a regular
/// file; it is consulted only for source hooks.
pub fn plan_hook(tool: &String, hook_path: &String, manifest_exists: bool, target_dir: &String) -> (
    p: HookPlan
)
    ensures
        !is_source_path(hook_path@) ==> (p matches HookPlan::RunDirect { program } && program@
            == hook_path@),
        is_source_path(hook_path@) && manifest_exists ==> (p matches HookPlan::ProjectRun {
            tool: t,
            manifest,
            bin,
        } && t@ == tool@ && manifest@ == sibling_manifest(hook_path@) && bin@ == stem_of(
            base_name(hook_path@),
        )),
        is_source_path(hook_path@) && !manifest_exists ==> (p matches HookPlan::ScratchRun {
            source,
            scratch_dir,
            output,
        } && source@ == hook_path@ && scratch_dir@ == scratch_dir_spec(
            target_dir@,
            stem_of(base_name(hook_path@)),
        ) && output@ == joined(
            scratch_dir_spec(target_dir@, stem_of(base_name(hook_path@))),
            stem_of(base_name(hook_path@)),
        )),
{
    if path_is_source(hook_path.as_str()) {
        let bin: String = source_stem(hook_path.as_str());
        if manifest_exists {
            HookPlan::ProjectRun {
                tool: tool.clone(),
                manifest: manifest_beside(hook_path.as_str()),
                bin,
            }
        } else {
            let area: String = join_path(target_dir.as_str(), "prepost");
            let scratch: String = join_path(area.as_str(), bin.as_str());
            let output: String = join_path(scratch.as_str(), bin.as_str());
            HookPlan::ScratchRun { source: hook_path.clone(), scratch_dir: scratch, output }
        }
    } else {
        HookPlan::RunDirect { program: hook_path.clone() }
    }
}

/// The shape of a plan, as the step machine needs it.
#[derive(Clone, Copy, Debug, PartialEq, Eq, Structural)]
pub enum PlanKind {
    Direct,
    Project,
    Scratch,
}

impl HookPlan {
    /// The plan's shape.
    pub open spec fn kind_spec(&self) -> PlanKind {
        match *self {
            HookPlan::RunDirect { .. } => PlanKind::Direct,
            HookPlan::ProjectRun { .. } => PlanKind::Project,
            HookPlan::ScratchRun { .. } => PlanKind::Scratch,
        }
    }

    /// Reads the plan's shape.
    pub fn kind(&self) -> (k: PlanKind)
        ensures
            k == self.kind_spec(),
    {
        match self {
            HookPlan::RunDirect { .. } => PlanKind::Direct,
            HookPlan::ProjectRun { .. } => PlanKind::Project,
            HookPlan::ScratchRun { .. } => PlanKind::Scratch,
        }
    }
}

/// The phase one hook run is in.
#[derive(Clone, Copy, Debug, PartialEq, Eq, Structural)]
pub enum HookPhase {
    /// Nothing has happened yet.
    Ready,
    /// The scratch directory is being created.
    Preparing,
    /// The standalone compiler is running.
    Compiling,
    /// The hook process itself is running.
    Running,
    /// The scratch directory is being removed.
    CleaningUp,
    /// The run is over.
    Done,
}

/// What the caller must do next for a hook run. Paths and arguments come
/// from the run's plan; every spawned process inherits the wrapper's
/// stdio and is waited on to completion.
#[derive(Clone, Copy, Debug, PartialEq, Eq, Structural)]
pub enum HookAction {
    /// Spawn the plan's program directly.
    SpawnDirect,
    /// Spawn the real tool's run facility on the plan's manifest and
    /// binary name, with the error stream suppressed.
    SpawnProjectRun,
    /// Create the plan's scratch directory (and any missing parents).
    CreateScratchDir,
    /// Spawn the standalone compiler on the plan's source, writing the
    /// plan's output path.
    SpawnCompile,
    /// Spawn the plan's compiled output.
    SpawnOutput,
    /// Remove the plan's scratch directory, best effort.
    RemoveScratchDir,
    /// The run is over; when `fatal` holds, the wrapper must abort with
    /// an error exit instead of going on.
    Finish { fatal: bool },
}

/// What the caller observed after performing the previous action.
#[derive(Clone, Copy, Debug, PartialEq, Eq, Structural)]
pub enum HookEvent {
    /// Nothing yet: ask for the first action.
    Begin,
    /// Creating the scratch directory succeeded or failed.
    DirCreated { ok: bool },
    /// A spawned process was waited on, with this outcome.
    ProcessDone { outcome: ProcessOutcome },
    /// The scratch directory removal was attempted.
    ScratchRemoved,
}

/// The state of one hook run.
#[derive(Clone, Copy, Debug, PartialEq, Eq, Structural)]
pub struct HookRun {
    /// The shape of the plan being run.
    pub kind: PlanKind,
    /// Where the run stands.
    pub phase: HookPhase,
    /// Whether the run has already failed in a way the wrapper must
    /// abort on: a process that could not be spawned, or a scratch
    /// directory that could not be created.
    pub fatal: bool,
}

impl HookRun {
    /// The event that fits each phase.
    pub open spec fn event_fits(self, e: HookEvent) -> bool {
        match self.phase {
            HookPhase::Ready => e is Begin,
            HookPhase::Preparing => e matches HookEvent::DirCreated { .. },
            HookPhase::Compiling => e matches HookEvent::ProcessDone { .. },
            HookPhase::Running => e matches HookEvent::ProcessDone { .. },
            HookPhase::CleaningUp => e is ScratchRemoved,
            HookPhase::Done => false,
        }
    }

    /// Only scratch runs pass through the scratch-only phases.
    pub open spec fn wf(self) -> bool {
        self.kind != PlanKind::Scratch ==> match self.phase {
            HookPhase::Preparing => false,
            HookPhase::Compiling => false,
            HookPhase::CleaningUp => false,
            _ => true,
        }
    }

    /// A fresh run for a plan of the given shape.
    pub fn start(kind: PlanKind) -> (s: HookRun)
        ensures
            s == (HookRun { kind, phase: HookPhase::Ready, fatal: false }),
            s.wf(),
    {
        HookRun { kind, phase: HookPhase::Ready, fatal: false }
    }

    /// Advances the run by one observed event and names the next action.
    pub fn step(&self, e: &HookEvent) -> (r: (HookRun, HookAction))
        requires
            self.event_fits(*e),
            self.wf(),
        ensures
            r == hook_step_spec(*self, *e),
            r.0.wf(),
            r.0.kind == self.kind,
    {
        let s: HookRun = *self;
        match s.phase {
            HookPhase::Ready => match s.kind {
                PlanKind::Direct => (
                    HookRun { kind: s.kind, phase: HookPhase::Running, fatal: false },
                    HookAction::SpawnDirect,
                ),
                PlanKind::Project => (
                    HookRun { kind: s.kind, phase: HookPhase::Running, fatal: false },
                    HookAction::SpawnProjectRun,
                ),
                PlanKind::Scratch => (
                    HookRun { kind: s.kind, phase: HookPhase::Preparing, fatal: false },
                    HookAction::CreateScratchDir,
                ),
            },
            HookPhase::Preparing => match e {
                HookEvent::DirCreated { ok: true } => (
                    HookRun { kind: s.kind, phase: HookPhase::Compiling, fatal: false },
                    HookAction::SpawnCompile,
                ),
                _ => (
                    HookRun { kind: s.kind, phase: HookPhase::CleaningUp, fatal: true },
                    HookAction::RemoveScratchDir,
                ),
            },
            HookPhase::Compiling => match e {
                HookEvent::ProcessDone { outcome: ProcessOutcome::SpawnFailed } => (
                    HookRun { kind: s.kind, phase: HookPhase::CleaningUp, fatal: true },
                    HookAction::RemoveScratchDir,
                ),
                _ => (
                    HookRun { kind: s.kind, phase: HookPhase::Running, fatal: false },
                    HookAction::SpawnOutput,
                ),
            },
            HookPhase::Running => {
                let failed: bool = match e {
                    HookEvent::ProcessDone { outcome: ProcessOutcome::SpawnFailed } => true,
                    _ => false,
                };
                match s.kind {
                    PlanKind::Scratch => (
                        HookRun { kind: s.kind, phase: HookPhase::CleaningUp, fatal: failed },
                        HookAction::RemoveScratchDir,
                    ),
                    _ => (
                        HookRun { kind: s.kind, phase: HookPhase::Done, fatal: failed },
                        HookAction::Finish { fatal: failed },
                    ),
                }
            },
            HookPhase::CleaningUp => (
                HookRun { kind: s.kind, phase: HookPhase::Done, fatal: s.fatal },
                HookAction::Finish { fatal: s.fatal },
            ),
            HookPhase::Done => (s, HookAction::Finish { fatal: s.fatal }),
        }
    }
}

/// The transition table of one hook run, as a function of the state and
/// the observed event.
pub open spec fn hook_step_spec(s: HookRun, e: HookEvent) -> (HookRun, HookAction) {
    match s.phase {
        HookPhase::Ready => match s.kind {
            PlanKind::Direct => (
                HookRun { kind: s.kind, phase: HookPhase::Running, fatal: false },
                HookAction::SpawnDirect,
            ),
            PlanKind::Project => (
                HookRun { kind: s.kind, phase: HookPhase::Running, fatal: false },
                HookAction::SpawnProjectRun,
            ),
            PlanKind::Scratch => (
                HookRun { kind: s.kind, phase: HookPhase::Preparing, fatal: false },
                HookAction::CreateScratchDir,
            ),
        },
        HookPhase::Preparing => if e == (HookEvent::DirCreated { ok: true }) {
            (
                HookRun { kind: s.kind, phase: HookPhase::Compiling, fatal: false },
                HookAction::SpawnCompile,
            )
        } else {
            (
                HookRun { kind: s.kind, phase: HookPhase::CleaningUp, fatal: true },
                HookAction::RemoveScratchDir,
            )
        },
        HookPhase::Compiling => if e == (HookEvent::ProcessDone {
            outcome: ProcessOutcome::SpawnFailed,
        }) {
            (
                HookRun { kind: s.kind, phase: HookPhase::CleaningUp, fatal: true },
                HookAction::RemoveScratchDir,
            )
        } else {
            (
                HookRun { kind: s.kind, phase: HookPhase::Running, fatal: false },
                HookAction::SpawnOutput,
            )
        },
        HookPhase::Running => {
            let failed = e == (HookEvent::ProcessDone { outcome: ProcessOutcome::SpawnFailed });
            if s.kind == PlanKind::Scratch {
                (
                    HookRun { kind: s.kind, phase: HookPhase::CleaningUp, fatal: failed },
                    HookAction::RemoveScratchDir,
                )
            } else {
                (
                    HookRun { kind: s.kind, phase: HookPhase::Done, fatal: failed },
                    HookAction::Finish { fatal: failed },
                )
            }
        },
        HookPhase::CleaningUp => (
            HookRun { kind: s.kind, phase: HookPhase::Done, fatal: s.fatal },
            HookAction::Finish { fatal: s.fatal },
        ),
        HookPhase::Done => (s, HookAction::Finish { fatal: s.fatal }),
    }
}

/// A scratch-built hook always cleans up after itself: a scratch run
/// reaches `Done` only out of `CleaningUp`, and every step that enters
/// `CleaningUp` — after the run, after a failed compile, and after a
/// failed directory creation alike — demands removal of the scratch
/// directory first.
pub proof fn lemma_scratch_always_cleaned(s: HookRun, e: HookEvent)
    requires
        s.kind is Scratch,
        s.event_fits(e),
    ensures
        hook_step_spec(s, e).0.phase is Done ==> s.phase is CleaningUp,
        hook_step_spec(s, e).0.phase is CleaningUp ==> hook_step_spec(s, e).1
            is RemoveScratchDir,
{
}

/// A hook that ran is never fatal, however it exited: out of the
/// `Running` phase the run finishes fatal exactly when the hook's
/// process could not be spawned at all — a non-zero exit code or a
/// signal is only reported — and a scratch run still removes its scratch
/// directory on the way to that finish.
pub proof fn lemma_fatal_only_on_spawn_failure(s: HookRun, o: ProcessOutcome)
    requires
        s.phase is Running,
        s.wf(),
    ensures
        ({
            let (s1, a1) = hook_step_spec(s, HookEvent::ProcessDone { outcome: o });
            if s.kind is Scratch {
                let (s2, a2) = hook_step_spec(s1, HookEvent::ScratchRemoved);
                &&& a1 is RemoveScratchDir
                &&& s2.phase is Done
                &&& a2 == (HookAction::Finish { fatal: hook_fatal_spec(o) })
            } else {
                &&& s1.phase is Done
                &&& a1 == (HookAction::Finish { fatal: hook_fatal_spec(o) })
            }
        }),
{
}

} // verus!
