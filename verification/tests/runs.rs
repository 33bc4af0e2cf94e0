use numake::backend::BuildContext;
use numake::composite::{Delegation, Leaf};
use numake::error::NuMakeError;
use numake::plan::{StepKind, Task};
use numake::run::{BuildRun, Phase, Progress};
use numake::target::{CustomTarget, GenericTarget, MINGWTarget, MSVCTarget, Target};

fn context() -> BuildContext {
    BuildContext {
        workspace: "/w/.numake".to_string(),
        output: None,
        toolset_compiler: None,
        toolset_linker: None,
        host_is_windows: false,
    }
}

fn target(name: &str) -> GenericTarget {
    let mut t = GenericTarget::new(
        name.to_string(),
        Some("cc".to_string()),
        Some("cc".to_string()),
        None,
        "/w".to_string(),
    );
    t.add_file("/w/a.c", true).unwrap();
    t.add_file("/w/b.c", true).unwrap();
    t.add_file("/w/c.c", true).unwrap();
    t
}

fn source_of(task: &Task) -> String {
    match task {
        Task::Run { invocation, .. } => invocation.args.last().unwrap().clone(),
        _ => panic!("not a run"),
    }
}

#[test]
fn build_runs_through_its_phases() {
    let mut t = target("app");
    t.settings.add_asset("/w/x.txt", "x.txt").unwrap();
    let plan = t.build(&context(), &vec![], &vec![]).unwrap();
    let mut run = BuildRun::start(plan);
    let mut phases = vec![];
    while run.next_task().is_some() {
        phases.push(run.phase());
        run.report(true);
    }
    assert_eq!(
        phases,
        vec![
            Phase::Setup,
            Phase::Compile,
            Phase::Compile,
            Phase::Compile,
            Phase::Compile,
            Phase::Link,
            Phase::CopyAssets
        ]
    );
    assert_eq!(run.phase(), Phase::Done);
    assert_eq!(run.error(), None);
}

#[test]
fn failing_compiler_stops_the_build() {
    let plan = target("app").build(&context(), &vec![], &vec![]).unwrap();
    let mut run = BuildRun::start(plan);
    let mut performed = vec![];
    let mut step = 0;
    while let Some(task) = run.next_task() {
        let ok = match task {
            Task::Run { kind: StepKind::Compile, .. } => {
                performed.push(source_of(task));
                source_of(task) != "/w/b.c"
            }
            Task::Run { kind: StepKind::Link, .. } => panic!("the link was attempted"),
            _ => true,
        };
        run.report(ok);
        step += 1;
        assert!(step < 20);
    }
    assert_eq!(performed, vec!["/w/a.c", "/w/b.c"]);
    assert_eq!(run.phase(), Phase::Failed);
    assert_eq!(run.error(), None);
    run.report(true);
    assert!(run.next_task().is_none());
    assert_eq!(run.phase(), Phase::Failed);
}

#[test]
fn refused_asset_fails_the_build_after_the_link() {
    let mut t = target("app");
    t.settings.add_asset("/w/x.txt", "x.txt").unwrap();
    t.settings.add_asset("/w/y.txt", "../y.txt").unwrap();
    t.settings.add_asset("/w/z.txt", "z.txt").unwrap();
    let plan = t.build(&context(), &vec![], &vec![]).unwrap();
    let mut run = BuildRun::start(plan);
    let mut linked = false;
    let mut copied = vec![];
    while let Some(task) = run.next_task() {
        match task {
            Task::Run { kind: StepKind::Link, .. } => linked = true,
            Task::Copy { to, .. } => {
                assert!(linked);
                copied.push(to.clone());
            }
            Task::Reject { .. } => panic!("a refusal was handed out"),
            _ => {}
        }
        run.report(true);
    }
    assert!(linked);
    assert_eq!(copied, vec!["/w/.numake/out/app/x.txt"]);
    assert_eq!(run.phase(), Phase::Failed);
    assert_eq!(run.error(), Some(NuMakeError::AssetCopyPathOutsideWorkingDirectory));
}

#[test]
fn failed_link_copies_no_asset() {
    let mut t = target("app");
    t.settings.add_asset("/w/x.txt", "x.txt").unwrap();
    let plan = t.build(&context(), &vec![], &vec![]).unwrap();
    let mut run = BuildRun::start(plan);
    while let Some(task) = run.next_task() {
        let ok = match task {
            Task::Run { kind: StepKind::Link, .. } => false,
            Task::Copy { .. } => panic!("an asset was copied"),
            _ => true,
        };
        run.report(ok);
    }
    assert_eq!(run.phase(), Phase::Failed);
}

#[test]
fn clean_set_is_stored_after_the_last_compile() {
    let plan = target("app").build(&context(), &vec![], &vec![]).unwrap();
    let tasks = plan.into_tasks();
    assert!(matches!(tasks[0], Task::CreateDirs(_)));
    assert!(matches!(tasks[3], Task::Run { kind: StepKind::Compile, .. }));
    assert!(matches!(tasks[4], Task::SaveCleanSet { .. }));
    assert!(matches!(tasks[5], Task::Run { kind: StepKind::Link, .. }));
}

#[test]
fn progress_skips_nothing_and_stops_at_a_block() {
    let mut p = Progress::new(vec![false, false, true, false]);
    assert_eq!(p.current(), Some(0));
    p.report(true);
    assert_eq!(p.current(), Some(1));
    p.report(true);
    assert_eq!(p.current(), None);
    assert!(p.has_failed());
    assert_eq!(p.position(), 2);
    let mut empty = Progress::new(vec![]);
    assert!(empty.is_done());
    assert_eq!(empty.current(), None);
    empty.report(false);
    assert!(empty.is_done());
}

fn composite() -> Target {
    let mut inner = CustomTarget::new("inner".to_string(), "".to_string());
    inner.sub_targets = vec![
        Target::MinGW(MINGWTarget::new("b".to_string(), None, "/w".to_string())),
        Target::MSVC(MSVCTarget::new("c".to_string(), None, "/w".to_string())),
    ];
    let mut outer = CustomTarget::new("outer".to_string(), "all".to_string());
    outer.sub_targets = vec![
        Target::Generic(target("a")),
        Target::Custom(inner),
        Target::Custom(CustomTarget::new("nothing".to_string(), "".to_string())),
        Target::Generic(target("d")),
    ];
    Target::Custom(outer)
}

fn leaf_name(leaf: &Leaf) -> String {
    match leaf {
        Leaf::Generic(t) => t.settings.name.clone(),
        Leaf::MinGW(t) => t.settings.name.clone(),
        Leaf::MSVC(t) => t.settings.name.clone(),
    }
}

#[test]
fn composite_builds_its_leaves_in_order() {
    let t = composite();
    let order = t.build_order();
    let names: Vec<String> = order.iter().map(leaf_name).collect();
    assert_eq!(names, vec!["a", "b", "c", "d"]);
    let single = Target::Generic(target("x"));
    assert_eq!(single.build_order().len(), 1);
}

#[test]
fn composite_stops_at_first_failing_sub_target() {
    let mut outer = CustomTarget::new("both".to_string(), "".to_string());
    outer.sub_targets = vec![Target::Generic(target("first")), Target::Generic(target("second"))];
    let t = Target::Custom(outer);
    let order = t.build_order();
    let mut delegation = Delegation::new(order.len());
    let mut attempted = vec![];
    while let Some(i) = delegation.current() {
        attempted.push(leaf_name(&order[i]));
        let plan = order[i].build(&context(), &vec![], &vec![]).unwrap();
        let mut run = BuildRun::start(plan);
        while let Some(task) = run.next_task() {
            let ok = !matches!(task, Task::Run { kind: StepKind::Link, .. });
            run.report(ok);
        }
        delegation.report(run.phase() == Phase::Done);
    }
    assert_eq!(attempted, vec!["first"]);
    assert!(delegation.has_failed());
    assert!(!delegation.is_done());
}

#[test]
fn composite_succeeds_when_every_leaf_does() {
    let t = composite();
    let order = t.build_order();
    let mut delegation = Delegation::new(order.len());
    let mut count = 0;
    while let Some(_) = delegation.current() {
        count += 1;
        delegation.report(true);
    }
    assert_eq!(count, 4);
    assert!(delegation.is_done());
    assert!(!delegation.has_failed());
}
