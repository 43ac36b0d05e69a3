//! Mirroring a vendor tree into the install directory.
//!
//! A tree is given as the entries of its root directory. The mirror is a list
//! of steps: every directory is made before anything is put into it, and
//! every file is copied to the same relative place under the destination.

use vstd::prelude::*;
use vstd::string::*;
use crate::command::{run_result, vendor_command, RunOutcome};
use crate::error::{ErrorKind, PipelineError};
use crate::path::{join, join_spec, Platform};

verus! {

/// An entry of a directory: a file, or a directory with its own entries.
#[derive(Debug)]
pub enum Node {
    File { name: String },
    Dir { name: String, children: Vec<Node> },
}

/// One action of a mirror.
#[derive(Clone, Debug, PartialEq, Eq)]
pub enum Step {
    /// Make the directory `path`, with every missing directory above it.
    MakeDir { path: String },
    /// Copy the file `from` to `to`.
    CopyFile { from: String, to: String },
}

/// A step over plain sequences.
pub enum StepView {
    MakeDir(Seq<char>),
    CopyFile(Seq<char>, Seq<char>),
}

impl DeepView for Step {
    type V = StepView;

    open spec fn deep_view(&self) -> StepView {
        match self {
            Step::MakeDir { path } => StepView::MakeDir(path@),
            Step::CopyFile { from, to } => StepView::CopyFile(from@, to@),
        }
    }
}

/// The steps that mirror `entries[i..]`, the entries of directory `src`, into
/// directory `dst`, which is there already. A file is copied; a directory is
/// made and then filled, before the next entry is looked at.
pub open spec fn entries_plan_spec(
    src: Seq<char>,
    dst: Seq<char>,
    entries: Seq<Node>,
    i: int,
    platform: Platform,
) -> Seq<StepView>
    decreases entries, entries.len() - i,
    via entries_plan_decreases
{
    if i < 0 || i >= entries.len() {
        Seq::empty()
    } else {
        (match entries[i] {
            Node::File { name } => seq![
                StepView::CopyFile(join_spec(src, name@, platform), join_spec(dst, name@, platform)),
            ],
            Node::Dir { name, children } => seq![
                StepView::MakeDir(join_spec(dst, name@, platform)),
            ] + entries_plan_spec(
                join_spec(src, name@, platform),
                join_spec(dst, name@, platform),
                children@,
                0,
                platform,
            ),
        }) + entries_plan_spec(src, dst, entries, i + 1, platform)
    }
}

#[via_fn]
proof fn entries_plan_decreases(
    src: Seq<char>,
    dst: Seq<char>,
    entries: Seq<Node>,
    i: int,
    platform: Platform,
) {
    if 0 <= i < entries.len() {
        lemma_children_smaller(entries, i);
    }
}

/// The entries of a directory among `entries` are smaller than `entries`.
proof fn lemma_children_smaller(entries: Seq<Node>, i: int)
    requires
        0 <= i < entries.len(),
    ensures
        match entries[i] {
            Node::File { .. } => true,
            Node::Dir { children, .. } => decreases_to!(entries => children@),
        },
{
    match entries[i] {
        Node::File { .. } => {},
        Node::Dir { name, children } => {
            assert(decreases_to!(entries => entries[i]));
            assert(decreases_to!(entries[i] => children));
            assert(decreases_to!(children => children@));
        },
    }
}

/// The steps that mirror the directory `src`, whose entries are `entries`,
/// into `dst`: make `dst`, then mirror the entries.
pub open spec fn plan_spec(
    src: Seq<char>,
    dst: Seq<char>,
    entries: Seq<Node>,
    platform: Platform,
) -> Seq<StepView> {
    seq![StepView::MakeDir(dst)] + entries_plan_spec(src, dst, entries, 0, platform)
}

/// Plans the mirror of directory `src` into `dst`. `entries` is what `src`
/// holds, in the order in which it was listed.
pub fn copy_dir(src: &str, dst: &str, entries: &Vec<Node>, platform: Platform) -> (steps: Vec<Step>)
    ensures
        steps.deep_view() == plan_spec(src@, dst@, entries@, platform),
    decreases entries@,
{
    let mut steps: Vec<Step> = Vec::new();
    steps.push(Step::MakeDir { path: String::from_str(dst) });
    assert(steps.deep_view() =~= seq![StepView::MakeDir(dst@)]);
    let mut i: usize = 0;
    while i < entries.len()
        invariant
            i <= entries.len(),
            steps.deep_view() + entries_plan_spec(src@, dst@, entries@, i as int, platform)
                == plan_spec(src@, dst@, entries@, platform),
        decreases entries.len() - i,
    {
        let ghost before = steps.deep_view();
        let ghost rest = entries_plan_spec(src@, dst@, entries@, i + 1, platform);
        match &entries[i] {
            Node::File { name } => {
                let from = join(src, name.as_str(), platform);
                let to = join(dst, name.as_str(), platform);
                steps.push(Step::CopyFile { from, to });
                assert(steps.deep_view() + rest =~= before + (seq![
                    StepView::CopyFile(
                        join_spec(src@, name@, platform),
                        join_spec(dst@, name@, platform),
                    ),
                ] + rest));
            },
            Node::Dir { name, children } => {
                let from = join(src, name.as_str(), platform);
                let to = join(dst, name.as_str(), platform);
                proof {
                    lemma_children_smaller(entries@, i as int);
                }
                let mut sub = copy_dir(from.as_str(), to.as_str(), children, platform);
                let ghost inner = sub.deep_view();
                steps.append(&mut sub);
                assert(steps.deep_view() + rest =~= before + (inner + rest));
            },
        }
        i += 1;
    }
    assert(steps.deep_view() + Seq::<StepView>::empty() =~= steps.deep_view());
    steps
}

/// The number of files in `entries[i..]`, at any depth.
pub open spec fn file_count(entries: Seq<Node>, i: int) -> nat
    decreases entries, entries.len() - i,
    via file_count_decreases
{
    if i < 0 || i >= entries.len() {
        0
    } else {
        (match entries[i] {
            Node::File { .. } => 1nat,
            Node::Dir { children, .. } => file_count(children@, 0),
        }) + file_count(entries, i + 1)
    }
}

#[via_fn]
proof fn file_count_decreases(entries: Seq<Node>, i: int) {
    if 0 <= i < entries.len() {
        lemma_children_smaller(entries, i);
    }
}

/// The number of directories in `entries[i..]`, at any depth.
pub open spec fn dir_count(entries: Seq<Node>, i: int) -> nat
    decreases entries, entries.len() - i,
    via dir_count_decreases
{
    if i < 0 || i >= entries.len() {
        0
    } else {
        (match entries[i] {
            Node::File { .. } => 0nat,
            Node::Dir { children, .. } => 1 + dir_count(children@, 0),
        }) + dir_count(entries, i + 1)
    }
}

#[via_fn]
proof fn dir_count_decreases(entries: Seq<Node>, i: int) {
    if 0 <= i < entries.len() {
        lemma_children_smaller(entries, i);
    }
}

/// The number of file copies among `steps`.
pub open spec fn copies(steps: Seq<StepView>) -> nat
    decreases steps.len(),
{
    if steps.len() == 0 {
        0
    } else {
        copies(steps.drop_last()) + (if steps.last() is CopyFile { 1nat } else { 0nat })
    }
}

/// The number of directories made by `steps`.
pub open spec fn made_dirs(steps: Seq<StepView>) -> nat
    decreases steps.len(),
{
    if steps.len() == 0 {
        0
    } else {
        made_dirs(steps.drop_last()) + (if steps.last() is MakeDir { 1nat } else { 0nat })
    }
}

/// Counting the steps of two lists put together is adding their counts.
pub proof fn lemma_counts_add(a: Seq<StepView>, b: Seq<StepView>)
    ensures
        copies(a + b) == copies(a) + copies(b),
        made_dirs(a + b) == made_dirs(a) + made_dirs(b),
    decreases b.len(),
{
    if b.len() == 0 {
        assert(a + b =~= a);
    } else {
        lemma_counts_add(a, b.drop_last());
        assert((a + b).drop_last() =~= a + b.drop_last());
        assert((a + b).last() == b.last());
    }
}

/// The mirror of `entries[i..]` copies each of its files once and makes each
/// of its directories once.
pub proof fn lemma_entries_counts(
    src: Seq<char>,
    dst: Seq<char>,
    entries: Seq<Node>,
    i: int,
    platform: Platform,
)
    requires
        0 <= i,
    ensures
        copies(entries_plan_spec(src, dst, entries, i, platform)) == file_count(entries, i),
        made_dirs(entries_plan_spec(src, dst, entries, i, platform)) == dir_count(entries, i),
    decreases entries, entries.len() - i,
{
    if i < entries.len() {
        let rest = entries_plan_spec(src, dst, entries, i + 1, platform);
        lemma_entries_counts(src, dst, entries, i + 1, platform);
        match entries[i] {
            Node::File { name } => {
                let one = seq![
                    StepView::CopyFile(join_spec(src, name@, platform), join_spec(dst, name@, platform)),
                ];
                lemma_single_counts(one[0]);
                assert(one =~= seq![one[0]]);
                lemma_counts_add(one, rest);
            },
            Node::Dir { name, children } => {
                lemma_children_smaller(entries, i);
                let sub_src = join_spec(src, name@, platform);
                let sub_dst = join_spec(dst, name@, platform);
                let one = seq![StepView::MakeDir(sub_dst)];
                let inner = entries_plan_spec(sub_src, sub_dst, children@, 0, platform);
                lemma_entries_counts(sub_src, sub_dst, children@, 0, platform);
                lemma_single_counts(one[0]);
                assert(one =~= seq![one[0]]);
                lemma_counts_add(one, inner);
                lemma_counts_add(one + inner, rest);
            },
        }
    }
}

/// A list of one step counts that step.
pub proof fn lemma_single_counts(step: StepView)
    ensures
        copies(seq![step]) == (if step is CopyFile { 1nat } else { 0nat }),
        made_dirs(seq![step]) == (if step is MakeDir { 1nat } else { 0nat }),
{
    let one = seq![step];
    assert(one.drop_last() =~= Seq::<StepView>::empty());
    assert(one.last() == step);
    assert(copies(one.drop_last()) == 0);
    assert(made_dirs(one.drop_last()) == 0);
}

/// Mirroring a tree of `N` files and `M` directories copies exactly `N` files
/// and makes exactly `M` directories below the destination, besides the
/// destination itself.
pub proof fn lemma_mirror_counts(
    src: Seq<char>,
    dst: Seq<char>,
    entries: Seq<Node>,
    platform: Platform,
)
    ensures
        copies(plan_spec(src, dst, entries, platform)) == file_count(entries, 0),
        made_dirs(plan_spec(src, dst, entries, platform)) == 1 + dir_count(entries, 0),
{
    let root = seq![StepView::MakeDir(dst)];
    lemma_single_counts(root[0]);
    assert(root =~= seq![root[0]]);
    lemma_entries_counts(src, dst, entries, 0, platform);
    lemma_counts_add(root, entries_plan_spec(src, dst, entries, 0, platform));
}

impl StepView {
    /// The path that the step writes.
    pub open spec fn target(self) -> Seq<char> {
        match self {
            StepView::MakeDir(path) => path,
            StepView::CopyFile(_, to) => to,
        }
    }
}

/// Whether `path` is an entry of directory `dir`.
pub open spec fn child_of(path: Seq<char>, dir: Seq<char>, platform: Platform) -> bool {
    exists|name: Seq<char>| path == #[trigger] join_spec(dir, name, platform)
}

/// Whether an earlier step than step `k` makes the directory that step `k`
/// writes into.
pub open spec fn parent_made(steps: Seq<StepView>, k: int, platform: Platform) -> bool {
    exists|j: int|
        0 <= j < k && (#[trigger] steps[j]) is MakeDir && child_of(
            steps[k].target(),
            steps[j].target(),
            platform,
        )
}

/// Steps put in front of, or behind, a list leave its steps with the parent
/// they had.
proof fn lemma_parent_kept(
    front: Seq<StepView>,
    steps: Seq<StepView>,
    back: Seq<StepView>,
    k: int,
    platform: Platform,
)
    requires
        0 <= k < steps.len(),
        parent_made(steps, k, platform),
    ensures
        parent_made(front + steps + back, front.len() + k, platform),
{
    let j = choose|j: int|
        0 <= j < k && (#[trigger] steps[j]) is MakeDir && child_of(
            steps[k].target(),
            steps[j].target(),
            platform,
        );
    let all = front + steps + back;
    assert(all[front.len() + j] == steps[j]);
    assert(all[front.len() + k] == steps[k]);
}

/// In the mirror of `entries[i..]` every step writes an entry of `dst` or an
/// entry of a directory that an earlier step has made.
proof fn lemma_entries_parents(
    src: Seq<char>,
    dst: Seq<char>,
    entries: Seq<Node>,
    i: int,
    platform: Platform,
    k: int,
)
    requires
        0 <= i,
        0 <= k < entries_plan_spec(src, dst, entries, i, platform).len(),
    ensures
        ({
            let steps = entries_plan_spec(src, dst, entries, i, platform);
            child_of(steps[k].target(), dst, platform) || parent_made(steps, k, platform)
        }),
    decreases entries, entries.len() - i,
{
    let steps = entries_plan_spec(src, dst, entries, i, platform);
    let rest = entries_plan_spec(src, dst, entries, i + 1, platform);
    let none = Seq::<StepView>::empty();
    match entries[i] {
        Node::File { name } => {
            let head = seq![
                StepView::CopyFile(join_spec(src, name@, platform), join_spec(dst, name@, platform)),
            ];
            assert(steps == head + rest);
            if k == 0 {
                assert(steps[0].target() == join_spec(dst, name@, platform));
            } else {
                lemma_entries_parents(src, dst, entries, i + 1, platform, k - 1);
                if parent_made(rest, k - 1, platform) {
                    lemma_parent_kept(head, rest, none, k - 1, platform);
                    assert(head + rest + none =~= steps);
                } else {
                    assert(steps[k] == rest[k - 1]);
                }
            }
        },
        Node::Dir { name, children } => {
            lemma_children_smaller(entries, i);
            let sub_src = join_spec(src, name@, platform);
            let sub_dst = join_spec(dst, name@, platform);
            let head = seq![StepView::MakeDir(sub_dst)];
            let inner = entries_plan_spec(sub_src, sub_dst, children@, 0, platform);
            assert(steps == head + inner + rest);
            if k == 0 {
                assert(steps[0].target() == join_spec(dst, name@, platform));
            } else if k <= inner.len() {
                lemma_entries_parents(sub_src, sub_dst, children@, 0, platform, k - 1);
                assert(steps[k] == inner[k - 1]);
                if parent_made(inner, k - 1, platform) {
                    lemma_parent_kept(head, inner, rest, k - 1, platform);
                } else {
                    assert(steps[0] is MakeDir && steps[0].target() == sub_dst);
                }
            } else {
                let m = k - 1 - inner.len();
                lemma_entries_parents(src, dst, entries, i + 1, platform, m);
                assert(steps[k] == rest[m]);
                if parent_made(rest, m, platform) {
                    lemma_parent_kept(head + inner, rest, none, m, platform);
                    assert(head + inner + rest + none =~= steps);
                }
            }
        },
    }
}

/// Every directory is made before anything is put into it: each step of a
/// mirror but the first, which makes the destination, writes an entry of a
/// directory that an earlier step has made.
pub proof fn lemma_parents_first(
    src: Seq<char>,
    dst: Seq<char>,
    entries: Seq<Node>,
    platform: Platform,
    k: int,
)
    requires
        1 <= k < plan_spec(src, dst, entries, platform).len(),
    ensures
        plan_spec(src, dst, entries, platform)[0] == StepView::MakeDir(dst),
        parent_made(plan_spec(src, dst, entries, platform), k, platform),
{
    let plan = plan_spec(src, dst, entries, platform);
    let root = seq![StepView::MakeDir(dst)];
    let inner = entries_plan_spec(src, dst, entries, 0, platform);
    let none = Seq::<StepView>::empty();
    lemma_entries_parents(src, dst, entries, 0, platform, k - 1);
    assert(plan[k] == inner[k - 1]);
    if parent_made(inner, k - 1, platform) {
        lemma_parent_kept(root, inner, none, k - 1, platform);
        assert(root + inner + none =~= plan);
    } else {
        assert(plan[0] is MakeDir && plan[0].target() == dst);
    }
}

/// A name as a directory listing gives it: not empty and without a
/// separator.
pub open spec fn plain_name(name: Seq<char>, platform: Platform) -> bool {
    name.len() > 0 && forall|i: int|
        0 <= i < name.len() ==> !platform.is_separator_spec(#[trigger] name[i])
}

/// Whether every entry of `entries[i..]`, at any depth, has a plain name.
pub open spec fn plain_names(entries: Seq<Node>, i: int, platform: Platform) -> bool
    decreases entries, entries.len() - i,
    via plain_names_decreases
{
    if i < 0 || i >= entries.len() {
        true
    } else {
        (match entries[i] {
            Node::File { name } => plain_name(name@, platform),
            Node::Dir { name, children } => plain_name(name@, platform) && plain_names(
                children@,
                0,
                platform,
            ),
        }) && plain_names(entries, i + 1, platform)
    }
}

#[via_fn]
proof fn plain_names_decreases(entries: Seq<Node>, i: int, platform: Platform) {
    if 0 <= i < entries.len() {
        lemma_children_smaller(entries, i);
    }
}

/// Whether `step` reads only below `src` and writes only below `dst`.
pub open spec fn within(step: StepView, src: Seq<char>, dst: Seq<char>) -> bool {
    match step {
        StepView::MakeDir(path) => dst.is_prefix_of(path),
        StepView::CopyFile(from, to) => src.is_prefix_of(from) && dst.is_prefix_of(to),
    }
}

/// A plain name joined to a directory gives a path below that directory.
pub proof fn lemma_join_below(
    root: Seq<char>,
    base: Seq<char>,
    name: Seq<char>,
    platform: Platform,
)
    requires
        plain_name(name, platform),
        root.is_prefix_of(base),
    ensures
        root.is_prefix_of(join_spec(base, name, platform)),
{
    let joined = join_spec(base, name, platform);
    assert(!platform.is_separator_spec(name[0]));
    assert(base.len() <= joined.len());
    assert(joined.subrange(0, base.len() as int) =~= base);
    assert(joined.subrange(0, root.len() as int) =~= base.subrange(0, root.len() as int));
}

/// Every step of the mirror of `entries[i..]` stays below `root_src` and
/// `root_dst`, where `src` and `dst` lie.
proof fn lemma_entries_within(
    root_src: Seq<char>,
    root_dst: Seq<char>,
    src: Seq<char>,
    dst: Seq<char>,
    entries: Seq<Node>,
    i: int,
    platform: Platform,
    k: int,
)
    requires
        0 <= i,
        plain_names(entries, i, platform),
        root_src.is_prefix_of(src),
        root_dst.is_prefix_of(dst),
        0 <= k < entries_plan_spec(src, dst, entries, i, platform).len(),
    ensures
        within(entries_plan_spec(src, dst, entries, i, platform)[k], root_src, root_dst),
    decreases entries, entries.len() - i,
{
    let steps = entries_plan_spec(src, dst, entries, i, platform);
    let rest = entries_plan_spec(src, dst, entries, i + 1, platform);
    match entries[i] {
        Node::File { name } => {
            lemma_join_below(root_src, src, name@, platform);
            lemma_join_below(root_dst, dst, name@, platform);
            if k > 0 {
                lemma_entries_within(root_src, root_dst, src, dst, entries, i + 1, platform, k - 1);
                assert(steps[k] == rest[k - 1]);
            }
        },
        Node::Dir { name, children } => {
            lemma_children_smaller(entries, i);
            let sub_src = join_spec(src, name@, platform);
            let sub_dst = join_spec(dst, name@, platform);
            let inner = entries_plan_spec(sub_src, sub_dst, children@, 0, platform);
            lemma_join_below(root_src, src, name@, platform);
            lemma_join_below(root_dst, dst, name@, platform);
            if 1 <= k <= inner.len() {
                lemma_entries_within(
                    root_src,
                    root_dst,
                    sub_src,
                    sub_dst,
                    children@,
                    0,
                    platform,
                    k - 1,
                );
                assert(steps[k] == inner[k - 1]);
            } else if k > inner.len() {
                let m = k - 1 - inner.len();
                lemma_entries_within(root_src, root_dst, src, dst, entries, i + 1, platform, m);
                assert(steps[k] == rest[m]);
            }
        },
    }
}

/// A mirror never leaves its two directories: where every entry has a plain
/// name, each step reads only below `src` and writes only below `dst`.
pub proof fn lemma_mirror_within(
    src: Seq<char>,
    dst: Seq<char>,
    entries: Seq<Node>,
    platform: Platform,
    k: int,
)
    requires
        plain_names(entries, 0, platform),
        0 <= k < plan_spec(src, dst, entries, platform).len(),
    ensures
        within(plan_spec(src, dst, entries, platform)[k], src, dst),
{
    let plan = plan_spec(src, dst, entries, platform);
    let inner = entries_plan_spec(src, dst, entries, 0, platform);
    assert(src.subrange(0, src.len() as int) =~= src);
    assert(dst.subrange(0, dst.len() as int) =~= dst);
    if k > 0 {
        lemma_entries_within(src, dst, src, dst, entries, 0, platform, k - 1);
        assert(plan[k] == inner[k - 1]);
    }
}

/// Where dependency resolution leaves the vendor tree of a project.
pub open spec fn vendor_source_spec(project_path: Seq<char>, platform: Platform) -> Seq<char> {
    join_spec(project_path, "vendor"@, platform)
}

/// Where the vendor tree is mirrored to.
pub open spec fn vendor_dest_spec(install_dir: Seq<char>, platform: Platform) -> Seq<char> {
    join_spec(install_dir, "vendor"@, platform)
}

/// The path of the vendor tree of the project at `project_path`.
pub fn vendor_source(project_path: &str, platform: Platform) -> (out: String)
    ensures
        out@ == vendor_source_spec(project_path@, platform),
{
    join(project_path, "vendor", platform)
}

/// Plans the vendor mirror once dependency resolution has run. `outcome` is
/// how that command ended; `vendor_tree` holds the entries of the project's
/// vendor directory, or `None` where that directory does not exist.
///
/// A command that did not start or that failed is reported as such, under
/// the command's name. A missing vendor directory is `VendorSourceMissing`,
/// under its path. Otherwise the result mirrors the tree into
/// `install_dir/vendor`.
pub fn vendor_dependencies(
    project_path: &str,
    install_dir: &str,
    outcome: RunOutcome,
    vendor_tree: Option<&Vec<Node>>,
    platform: Platform,
) -> (r: Result<Vec<Step>, PipelineError>)
    ensures
        outcome == RunOutcome::NotStarted ==> r is Err && r->Err_0.is(
            ErrorKind::BuildSpawn,
            "cargo vendor"@,
        ),
        outcome == (RunOutcome::Exited { success: false }) ==> r is Err && r->Err_0.is(
            ErrorKind::BuildFailed,
            "cargo vendor"@,
        ),
        outcome == (RunOutcome::Exited { success: true }) ==> match vendor_tree {
            None => r is Err && r->Err_0.is(
                ErrorKind::VendorSourceMissing,
                vendor_source_spec(project_path@, platform),
            ),
            Some(entries) => r is Ok && r->Ok_0.deep_view() == plan_spec(
                vendor_source_spec(project_path@, platform),
                vendor_dest_spec(install_dir@, platform),
                entries@,
                platform,
            ),
        },
{
    let command = vendor_command(project_path);
    match run_result(&command, outcome) {
        Err(e) => Err(e),
        Ok(_) => {
            let source = vendor_source(project_path, platform);
            match vendor_tree {
                None => Err(PipelineError::new(ErrorKind::VendorSourceMissing, source.as_str())),
                Some(entries) => {
                    let dest = join(install_dir, "vendor", platform);
                    Ok(copy_dir(source.as_str(), dest.as_str(), entries, platform))
                },
            }
        },
    }
}

/// What a failed step of the mirror amounts to: `MirrorIo`, naming the path
/// the step was to write. The steps after it are not carried out.
pub fn step_failure(step: &Step) -> (e: PipelineError)
    ensures
        match step {
            Step::MakeDir { path } => e.is(ErrorKind::MirrorIo, path@),
            Step::CopyFile { from, to } => e.is(ErrorKind::MirrorIo, to@),
        },
{
    match step {
        Step::MakeDir { path } => PipelineError::new(ErrorKind::MirrorIo, path.as_str()),
        Step::CopyFile { from, to } => PipelineError::new(ErrorKind::MirrorIo, to.as_str()),
    }
}

} // verus!
