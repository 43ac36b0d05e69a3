use black_anvil::command::RunOutcome;
use black_anvil::error::ErrorKind;
use black_anvil::mirror::{step_failure, vendor_source, Node, Step};
use black_anvil::path::Platform;
use black_anvil::pipeline::{Stage, Work};
use black_anvil::{copy_dir, vendor_dependencies};

fn file(name: &str) -> Node {
    Node::File { name: name.to_string() }
}

fn dir(name: &str, children: Vec<Node>) -> Node {
    Node::Dir { name: name.to_string(), children }
}

fn make(path: &str) -> Step {
    Step::MakeDir { path: path.to_string() }
}

fn copy(from: &str, to: &str) -> Step {
    Step::CopyFile { from: from.to_string(), to: to.to_string() }
}

fn sample() -> Vec<Node> {
    vec![file("a"), dir("d", vec![file("b"), dir("e", vec![])]), file("c")]
}

#[test]
fn empty_directory_is_only_made() {
    assert_eq!(copy_dir("src", "dst", &vec![], Platform::Unix), vec![make("dst")]);
}

#[test]
fn mirror_keeps_relative_paths() {
    let steps = copy_dir("p/vendor", "i/vendor", &sample(), Platform::Unix);
    assert_eq!(
        steps,
        vec![
            make("i/vendor"),
            copy("p/vendor/a", "i/vendor/a"),
            make("i/vendor/d"),
            copy("p/vendor/d/b", "i/vendor/d/b"),
            make("i/vendor/d/e"),
            copy("p/vendor/c", "i/vendor/c"),
        ]
    );
}

#[test]
fn mirror_copies_each_file_and_makes_each_directory_once() {
    let steps = copy_dir("s", "d", &sample(), Platform::Unix);
    let copies = steps.iter().filter(|s| matches!(s, Step::CopyFile { .. })).count();
    let made = steps.iter().filter(|s| matches!(s, Step::MakeDir { .. })).count();
    assert_eq!(copies, 3);
    assert_eq!(made, 1 + 2);
}

#[test]
fn directories_are_made_before_they_are_filled() {
    let steps = copy_dir("s", "d", &sample(), Platform::Unix);
    let pos = |wanted: &Step| steps.iter().position(|s| s == wanted).unwrap();
    assert!(pos(&make("d")) < pos(&copy("s/a", "d/a")));
    assert!(pos(&make("d/d")) < pos(&copy("s/d/b", "d/d/b")));
    assert!(pos(&make("d/d")) < pos(&make("d/d/e")));
}

#[test]
fn mirror_under_windows_convention() {
    let steps = copy_dir("p\\vendor", "i\\vendor", &vec![dir("x", vec![file("y")])], Platform::Windows);
    assert_eq!(
        steps,
        vec![
            make("i\\vendor"),
            make("i\\vendor\\x"),
            copy("p\\vendor\\x\\y", "i\\vendor\\x\\y"),
        ]
    );
}

#[test]
fn vendor_mirror_goes_under_the_install_dir() {
    let tree = vec![file("lock")];
    let steps = vendor_dependencies(
        "proj",
        "inst",
        RunOutcome::Exited { success: true },
        Some(&tree),
        Platform::Unix,
    )
    .unwrap();
    assert_eq!(steps, vec![make("inst/vendor"), copy("proj/vendor/lock", "inst/vendor/lock")]);
}

#[test]
fn missing_vendor_directory_is_reported() {
    let err = vendor_dependencies(
        "proj",
        "inst",
        RunOutcome::Exited { success: true },
        None,
        Platform::Unix,
    )
    .unwrap_err();
    assert_eq!(err.kind, ErrorKind::VendorSourceMissing);
    assert_eq!(err.subject, "proj/vendor");
    assert_eq!(vendor_source("proj", Platform::Unix), "proj/vendor");
}

#[test]
fn failed_dependency_resolution_is_reported_like_a_failed_build() {
    let tree = vec![file("lock")];
    let err = vendor_dependencies(
        "proj",
        "inst",
        RunOutcome::Exited { success: false },
        Some(&tree),
        Platform::Unix,
    )
    .unwrap_err();
    assert_eq!(err.kind, ErrorKind::BuildFailed);
    assert_eq!(err.subject, "cargo vendor");
    let err = vendor_dependencies("proj", "inst", RunOutcome::NotStarted, None, Platform::Unix)
        .unwrap_err();
    assert_eq!(err.kind, ErrorKind::BuildSpawn);
    assert_eq!(err.subject, "cargo vendor");
}

#[test]
fn failed_step_is_a_mirror_error() {
    let err = step_failure(&make("i/vendor/d"));
    assert_eq!(err.kind, ErrorKind::MirrorIo);
    assert_eq!(err.subject, "i/vendor/d");
    let err = step_failure(&copy("a", "b"));
    assert_eq!(err.kind, ErrorKind::MirrorIo);
    assert_eq!(err.subject, "b");
}

fn walk(outcomes: &[bool], vendor: bool) -> Vec<Stage> {
    let mut stage = Stage::Idle;
    let mut seen = vec![stage];
    for ok in outcomes {
        stage = stage.next(*ok, vendor);
        seen.push(stage);
    }
    seen
}

#[test]
fn successful_run_without_vendoring() {
    assert_eq!(
        walk(&[true; 7], false),
        vec![
            Stage::Idle,
            Stage::Building,
            Stage::Built,
            Stage::Locating,
            Stage::Located,
            Stage::Installing,
            Stage::Installed,
            Stage::Done,
        ]
    );
}

#[test]
fn successful_run_with_vendoring() {
    let seen = walk(&[true; 9], true);
    assert_eq!(
        seen[6..].to_vec(),
        vec![Stage::Installed, Stage::Mirroring, Stage::Mirrored, Stage::Done]
    );
    assert_eq!(Stage::Mirroring.work(), Work::MirrorVendor);
}

#[test]
fn failed_build_stops_the_run_before_anything_is_written() {
    let seen = walk(&[true, false, true, true, true, true, true, true], true);
    for stage in &seen {
        assert!(!matches!(stage.work(), Work::StageBinary | Work::MirrorVendor));
    }
    assert_eq!(seen[2], Stage::BuildFailed);
    assert_eq!(*seen.last().unwrap(), Stage::BuildFailed);
    assert!(Stage::BuildFailed.is_failed());
    assert!(Stage::BuildFailed.is_final());
}

#[test]
fn unresolved_manifest_stops_the_run_before_installing() {
    let seen = walk(&[true, true, true, false, true, true, true], false);
    assert_eq!(seen[4], Stage::NotFound);
    assert_eq!(*seen.last().unwrap(), Stage::NotFound);
    assert!(!seen.contains(&Stage::Installing));
}

#[test]
fn failed_mirror_leaves_the_run_failed_after_the_install() {
    let seen = walk(&[true, true, true, true, true, true, true, false, true], true);
    assert!(seen.contains(&Stage::Installed));
    assert_eq!(*seen.last().unwrap(), Stage::MirrorFailed);
}

#[test]
fn failed_install() {
    let seen = walk(&[true, true, true, true, true, false, true], true);
    assert_eq!(*seen.last().unwrap(), Stage::InstallFailed);
    assert!(!seen.contains(&Stage::Mirroring));
}

#[test]
fn work_of_each_stage() {
    assert_eq!(Stage::Idle.work(), Work::Nothing);
    assert_eq!(Stage::Building.work(), Work::RunBuild);
    assert_eq!(Stage::Locating.work(), Work::ResolveArtifact);
    assert_eq!(Stage::Installing.work(), Work::StageBinary);
    assert_eq!(Stage::Done.work(), Work::Nothing);
    assert!(Stage::Done.is_final());
    assert!(!Stage::Done.is_failed());
    assert!(!Stage::Installing.is_final());
}

#[test]
fn mirror_stays_within_its_two_directories() {
    let steps = copy_dir("proj/vendor", "inst/vendor", &sample(), Platform::Unix);
    for step in &steps {
        match step {
            Step::MakeDir { path } => assert!(path.starts_with("inst/vendor")),
            Step::CopyFile { from, to } => {
                assert!(from.starts_with("proj/vendor"));
                assert!(to.starts_with("inst/vendor"));
            }
        }
    }
}

#[test]
fn mirror_lists_entries_in_the_order_given() {
    let steps = copy_dir("s", "d", &vec![file("z"), file("a")], Platform::Unix);
    assert_eq!(steps, vec![make("d"), copy("s/z", "d/z"), copy("s/a", "d/a")]);
}
