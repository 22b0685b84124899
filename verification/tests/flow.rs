//! Tests of the hook execution plans, the hook-run machine and the
//! orchestration machine, walked on concrete scenarios.

use cargo_prepost::executor::{
    plan_hook, HookAction, HookEvent, HookPhase, HookPlan, HookRun, PlanKind,
};
use cargo_prepost::orchestrator::{OrchAction, OrchEvent, Orchestrator, Stage};
use cargo_prepost::outcome::{hook_stage_fatal, wrapper_exit_code, ProcessOutcome};

fn tool() -> String {
    String::from("/usr/bin/cargo")
}

fn exited(code: i32) -> HookEvent {
    HookEvent::ProcessDone { outcome: ProcessOutcome::Exited { code } }
}

#[test]
fn exit_codes_map_centrally() {
    assert_eq!(wrapper_exit_code(&ProcessOutcome::Exited { code: 0 }), 0);
    assert_eq!(wrapper_exit_code(&ProcessOutcome::Exited { code: 42 }), 42);
    assert_eq!(wrapper_exit_code(&ProcessOutcome::Signaled), 1);
    assert_eq!(wrapper_exit_code(&ProcessOutcome::SpawnFailed), 1);
}

#[test]
fn only_spawn_failure_is_fatal_for_hooks() {
    assert!(!hook_stage_fatal(&ProcessOutcome::Exited { code: 0 }));
    assert!(!hook_stage_fatal(&ProcessOutcome::Exited { code: 3 }));
    assert!(!hook_stage_fatal(&ProcessOutcome::Signaled));
    assert!(hook_stage_fatal(&ProcessOutcome::SpawnFailed));
}

#[test]
fn executable_hook_plans_a_direct_run() {
    let plan = plan_hook(&tool(), &String::from("wd/prepost/prebuild"), false, &String::from("t"));
    match plan {
        HookPlan::RunDirect { program } => assert_eq!(program, "wd/prepost/prebuild"),
        other => panic!("expected a direct run, got {:?}", other),
    }
}

#[test]
fn source_hook_with_manifest_plans_a_project_run() {
    let plan = plan_hook(&tool(), &String::from("wd/prepost/pretest.rs"), true, &String::from("t"));
    match plan {
        HookPlan::ProjectRun { tool: t, manifest, bin } => {
            assert_eq!(t, "/usr/bin/cargo");
            assert_eq!(manifest, "wd/prepost/Cargo.toml");
            assert_eq!(bin, "pretest");
        }
        other => panic!("expected a project run, got {:?}", other),
    }
}

#[test]
fn lone_source_hook_plans_a_scratch_run() {
    let plan = plan_hook(
        &tool(),
        &String::from("prepost/pretest.rs"),
        false,
        &String::from("./target"),
    );
    match plan {
        HookPlan::ScratchRun { source, scratch_dir, output } => {
            assert_eq!(source, "prepost/pretest.rs");
            assert_eq!(scratch_dir, "./target/prepost/pretest");
            assert_eq!(output, "./target/prepost/pretest/pretest");
        }
        other => panic!("expected a scratch run, got {:?}", other),
    }
}

#[test]
fn direct_run_finishes_even_on_nonzero_exit() {
    let s = HookRun::start(PlanKind::Direct);
    let (s, a) = s.step(&HookEvent::Begin);
    assert_eq!(a, HookAction::SpawnDirect);
    let (s, a) = s.step(&exited(3));
    assert_eq!(a, HookAction::Finish { fatal: false });
    assert_eq!(s.phase, HookPhase::Done);
}

#[test]
fn project_run_spawns_through_the_tool() {
    let s = HookRun::start(PlanKind::Project);
    let (s, a) = s.step(&HookEvent::Begin);
    assert_eq!(a, HookAction::SpawnProjectRun);
    let (_, a) = s.step(&exited(0));
    assert_eq!(a, HookAction::Finish { fatal: false });
}

#[test]
fn direct_run_is_fatal_only_when_spawning_fails() {
    let s = HookRun::start(PlanKind::Direct);
    let (s, _) = s.step(&HookEvent::Begin);
    let (_, a) = s.step(&HookEvent::ProcessDone { outcome: ProcessOutcome::SpawnFailed });
    assert_eq!(a, HookAction::Finish { fatal: true });
}

#[test]
fn scratch_run_builds_runs_and_cleans_up() {
    let s = HookRun::start(PlanKind::Scratch);
    let (s, a) = s.step(&HookEvent::Begin);
    assert_eq!(a, HookAction::CreateScratchDir);
    let (s, a) = s.step(&HookEvent::DirCreated { ok: true });
    assert_eq!(a, HookAction::SpawnCompile);
    let (s, a) = s.step(&exited(0));
    assert_eq!(a, HookAction::SpawnOutput);
    let (s, a) = s.step(&exited(0));
    assert_eq!(a, HookAction::RemoveScratchDir);
    let (s, a) = s.step(&HookEvent::ScratchRemoved);
    assert_eq!(a, HookAction::Finish { fatal: false });
    assert_eq!(s.phase, HookPhase::Done);
}

#[test]
fn scratch_run_cleans_up_after_every_failure() {
    // The hook itself cannot be spawned: still remove the scratch
    // directory first, then report the run fatal.
    let s = HookRun::start(PlanKind::Scratch);
    let (s, _) = s.step(&HookEvent::Begin);
    let (s, _) = s.step(&HookEvent::DirCreated { ok: true });
    let (s, _) = s.step(&exited(0));
    let (s, a) = s.step(&HookEvent::ProcessDone { outcome: ProcessOutcome::SpawnFailed });
    assert_eq!(a, HookAction::RemoveScratchDir);
    let (_, a) = s.step(&HookEvent::ScratchRemoved);
    assert_eq!(a, HookAction::Finish { fatal: true });

    // The compiler cannot be spawned: same cleanup, same fatality.
    let s = HookRun::start(PlanKind::Scratch);
    let (s, _) = s.step(&HookEvent::Begin);
    let (s, _) = s.step(&HookEvent::DirCreated { ok: true });
    let (s, a) = s.step(&HookEvent::ProcessDone { outcome: ProcessOutcome::SpawnFailed });
    assert_eq!(a, HookAction::RemoveScratchDir);
    let (_, a) = s.step(&HookEvent::ScratchRemoved);
    assert_eq!(a, HookAction::Finish { fatal: true });

    // The scratch directory cannot be created: removal is still
    // attempted, and the run is fatal.
    let s = HookRun::start(PlanKind::Scratch);
    let (s, _) = s.step(&HookEvent::Begin);
    let (s, a) = s.step(&HookEvent::DirCreated { ok: false });
    assert_eq!(a, HookAction::RemoveScratchDir);
    let (_, a) = s.step(&HookEvent::ScratchRemoved);
    assert_eq!(a, HookAction::Finish { fatal: true });
}

#[test]
fn no_hooks_is_a_plain_passthrough() {
    let s = Orchestrator::new(false, false);
    let (s, a) = s.step(&OrchEvent::Start);
    assert_eq!(a, OrchAction::RunTool);
    let (s, a) = s.step(&OrchEvent::ToolFinished {
        outcome: ProcessOutcome::Exited { code: 5 },
    });
    assert_eq!(a, OrchAction::ExitWith { code: 5 });
    assert_eq!(s.stage, Stage::Finished);
}

#[test]
fn no_hooks_twice_decides_identically() {
    let mut traces: Vec<Vec<OrchAction>> = Vec::new();
    for _ in 0..2 {
        let s = Orchestrator::new(false, false);
        let (s, a1) = s.step(&OrchEvent::Start);
        let (_, a2) = s.step(&OrchEvent::ToolFinished {
            outcome: ProcessOutcome::Exited { code: 0 },
        });
        traces.push(vec![a1, a2]);
    }
    assert_eq!(traces[0], traces[1]);
    assert_eq!(traces[0], vec![OrchAction::RunTool, OrchAction::ExitWith { code: 0 }]);
}

#[test]
fn pre_hook_runs_before_the_tool_whatever_its_exit() {
    let s = Orchestrator::new(true, false);
    let (s, a) = s.step(&OrchEvent::Start);
    assert_eq!(a, OrchAction::RunPreHook);
    // The pre hook exited non-zero: its stage reports fatal = false, and
    // the tool still runs next.
    let (s, a) = s.step(&OrchEvent::HookFinished { fatal: false });
    assert_eq!(a, OrchAction::RunTool);
    let (_, a) = s.step(&OrchEvent::ToolFinished {
        outcome: ProcessOutcome::Exited { code: 0 },
    });
    assert_eq!(a, OrchAction::ExitWith { code: 0 });
}

#[test]
fn failing_pre_hook_still_lets_the_tool_run() {
    // A pre hook that runs and exits 3: its own run finishes non-fatal...
    let s = HookRun::start(PlanKind::Direct);
    let (s, _) = s.step(&HookEvent::Begin);
    let (_, a) = s.step(&exited(3));
    let HookAction::Finish { fatal } = a else {
        panic!("the run must finish, got {:?}", a)
    };
    assert!(!fatal);
    // ...so the orchestrator still proceeds to the real tool.
    let o = Orchestrator::new(true, false);
    let (o, a) = o.step(&OrchEvent::Start);
    assert_eq!(a, OrchAction::RunPreHook);
    let (_, a) = o.step(&OrchEvent::HookFinished { fatal });
    assert_eq!(a, OrchAction::RunTool);
}

#[test]
fn post_hook_exit_code_never_becomes_the_wrappers() {
    // The tool exits 7; the post hook runs and itself exits 9.
    let h = HookRun::start(PlanKind::Direct);
    let (h, _) = h.step(&HookEvent::Begin);
    let (_, a) = h.step(&exited(9));
    let HookAction::Finish { fatal } = a else {
        panic!("the run must finish, got {:?}", a)
    };
    let o = Orchestrator::new(false, true);
    let (o, _) = o.step(&OrchEvent::Start);
    let (o, a) = o.step(&OrchEvent::ToolFinished {
        outcome: ProcessOutcome::Exited { code: 7 },
    });
    assert_eq!(a, OrchAction::RunPostHook);
    let (_, a) = o.step(&OrchEvent::HookFinished { fatal });
    assert_eq!(a, OrchAction::ExitWith { code: 7 });
}

#[test]
fn fatal_pre_hook_aborts_before_the_tool() {
    let s = Orchestrator::new(true, true);
    let (s, _) = s.step(&OrchEvent::Start);
    let (s, a) = s.step(&OrchEvent::HookFinished { fatal: true });
    assert_eq!(a, OrchAction::ExitWith { code: 1 });
    assert_eq!(s.stage, Stage::Finished);
}

#[test]
fn post_hook_runs_even_when_the_tool_fails() {
    let s = Orchestrator::new(false, true);
    let (s, a) = s.step(&OrchEvent::Start);
    assert_eq!(a, OrchAction::RunTool);
    let (s, a) = s.step(&OrchEvent::ToolFinished {
        outcome: ProcessOutcome::Exited { code: 7 },
    });
    assert_eq!(a, OrchAction::RunPostHook);
    assert_eq!(s.exit_code, 7);
    // The post hook's own exit does not change the wrapper's code.
    let (s, a) = s.step(&OrchEvent::HookFinished { fatal: false });
    assert_eq!(a, OrchAction::ExitWith { code: 7 });
    assert_eq!(s.stage, Stage::Finished);
}

#[test]
fn signaled_tool_exits_one_after_the_post_hook() {
    let s = Orchestrator::new(false, true);
    let (s, _) = s.step(&OrchEvent::Start);
    let (s, a) = s.step(&OrchEvent::ToolFinished { outcome: ProcessOutcome::Signaled });
    assert_eq!(a, OrchAction::RunPostHook);
    let (_, a) = s.step(&OrchEvent::HookFinished { fatal: false });
    assert_eq!(a, OrchAction::ExitWith { code: 1 });
}

#[test]
fn unspawnable_tool_is_fatal_at_once() {
    let s = Orchestrator::new(false, true);
    let (s, _) = s.step(&OrchEvent::Start);
    let (s, a) = s.step(&OrchEvent::ToolFinished { outcome: ProcessOutcome::SpawnFailed });
    assert_eq!(a, OrchAction::ExitWith { code: 1 });
    assert_eq!(s.stage, Stage::Finished);
}
