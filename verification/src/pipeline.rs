//! The order of the pipeline's stages.
//!
//! A run is a walk through the stages below. Four of them do work outside the
//! library; the outcome of that work decides the next stage. A failed stage
//! is final: nothing is retried and nothing is resumed.

use vstd::prelude::*;

verus! {

/// Where a run stands.
#[derive(Clone, Copy, Debug, PartialEq, Eq, Structural)]
pub enum Stage {
    Idle,
    Building,
    BuildFailed,
    Built,
    Locating,
    NotFound,
    Located,
    Installing,
    InstallFailed,
    Installed,
    Mirroring,
    MirrorFailed,
    Mirrored,
    Done,
}

/// What a stage asks of the caller.
#[derive(Clone, Copy, Debug, PartialEq, Eq, Structural)]
pub enum Work {
    Nothing,
    /// Run the build command.
    RunBuild,
    /// Read the manifest and resolve the binary's location.
    ResolveArtifact,
    /// Make the install directory and copy the binary into it.
    StageBinary,
    /// Resolve the dependencies and mirror the vendor tree.
    MirrorVendor,
}

impl Work {
    /// Whether the work creates directories or copies files.
    pub open spec fn writes_disk(self) -> bool {
        self == Work::StageBinary || self == Work::MirrorVendor
    }
}

impl Stage {
    /// The stage after `self`, where `ok` says whether the work of `self`
    /// succeeded and `vendor` whether a vendor mirror was asked for.
    pub open spec fn next_spec(self, ok: bool, vendor: bool) -> Stage {
        match self {
            Stage::Idle => Stage::Building,
            Stage::Building => if ok { Stage::Built } else { Stage::BuildFailed },
            Stage::Built => Stage::Locating,
            Stage::Locating => if ok { Stage::Located } else { Stage::NotFound },
            Stage::Located => Stage::Installing,
            Stage::Installing => if ok { Stage::Installed } else { Stage::InstallFailed },
            Stage::Installed => if vendor { Stage::Mirroring } else { Stage::Done },
            Stage::Mirroring => if ok { Stage::Mirrored } else { Stage::MirrorFailed },
            Stage::Mirrored => Stage::Done,
            Stage::BuildFailed => Stage::BuildFailed,
            Stage::NotFound => Stage::NotFound,
            Stage::InstallFailed => Stage::InstallFailed,
            Stage::MirrorFailed => Stage::MirrorFailed,
            Stage::Done => Stage::Done,
        }
    }

    /// The work that this stage asks for; only four stages ask for any.
    pub open spec fn work_spec(self) -> Work {
        match self {
            Stage::Building => Work::RunBuild,
            Stage::Locating => Work::ResolveArtifact,
            Stage::Installing => Work::StageBinary,
            Stage::Mirroring => Work::MirrorVendor,
            _ => Work::Nothing,
        }
    }

    /// Whether the run has failed.
    pub open spec fn is_failed_spec(self) -> bool {
        self == Stage::BuildFailed || self == Stage::NotFound || self == Stage::InstallFailed
            || self == Stage::MirrorFailed
    }

    /// Whether the build has succeeded by the time the run is in `self`.
    pub open spec fn after_build(self) -> bool {
        self != Stage::Idle && self != Stage::Building && self != Stage::BuildFailed
    }

    /// Whether the binary has been located by the time the run is in `self`.
    pub open spec fn after_locate(self) -> bool {
        self.after_build() && self != Stage::Built && self != Stage::Locating && self
            != Stage::NotFound
    }

    /// Moves to the next stage.
    pub fn next(self, ok: bool, vendor: bool) -> (s: Stage)
        ensures
            s == self.next_spec(ok, vendor),
    {
        match self {
            Stage::Idle => Stage::Building,
            Stage::Building => if ok { Stage::Built } else { Stage::BuildFailed },
            Stage::Built => Stage::Locating,
            Stage::Locating => if ok { Stage::Located } else { Stage::NotFound },
            Stage::Located => Stage::Installing,
            Stage::Installing => if ok { Stage::Installed } else { Stage::InstallFailed },
            Stage::Installed => if vendor { Stage::Mirroring } else { Stage::Done },
            Stage::Mirroring => if ok { Stage::Mirrored } else { Stage::MirrorFailed },
            Stage::Mirrored => Stage::Done,
            Stage::BuildFailed => Stage::BuildFailed,
            Stage::NotFound => Stage::NotFound,
            Stage::InstallFailed => Stage::InstallFailed,
            Stage::MirrorFailed => Stage::MirrorFailed,
            Stage::Done => Stage::Done,
        }
    }

    /// The work that this stage asks for.
    pub fn work(self) -> (w: Work)
        ensures
            w == self.work_spec(),
    {
        match self {
            Stage::Building => Work::RunBuild,
            Stage::Locating => Work::ResolveArtifact,
            Stage::Installing => Work::StageBinary,
            Stage::Mirroring => Work::MirrorVendor,
            _ => Work::Nothing,
        }
    }

    /// Whether the run has failed.
    pub fn is_failed(self) -> (b: bool)
        ensures
            b == self.is_failed_spec(),
    {
        match self {
            Stage::BuildFailed | Stage::NotFound | Stage::InstallFailed | Stage::MirrorFailed => true,
            _ => false,
        }
    }

    /// Whether the run is over, in success or in failure.
    pub fn is_final(self) -> (b: bool)
        ensures
            b == (self == Stage::Done || self.is_failed_spec()),
            b ==> self.work_spec() == Work::Nothing,
            b ==> forall|ok: bool, vendor: bool| self.next_spec(ok, vendor) == self,
    {
        match self {
            Stage::Done => true,
            _ => self.is_failed(),
        }
    }
}

/// The stage of a run after its first `n` moves, where `outcomes[i]` is the
/// outcome handed to move `i`.
pub open spec fn stage_at(outcomes: Seq<bool>, n: int, vendor: bool) -> Stage
    decreases n,
{
    if n <= 0 {
        Stage::Idle
    } else {
        stage_at(outcomes, n - 1, vendor).next_spec(outcomes[n - 1], vendor)
    }
}

/// A failed or finished run stays where it is, whatever is handed to it.
pub proof fn lemma_final_stays(outcomes: Seq<bool>, k: int, n: int, vendor: bool)
    requires
        0 <= k <= n,
        stage_at(outcomes, k, vendor) == Stage::Done || stage_at(
            outcomes,
            k,
            vendor,
        ).is_failed_spec(),
    ensures
        stage_at(outcomes, n, vendor) == stage_at(outcomes, k, vendor),
    decreases n,
{
    if n > k {
        lemma_final_stays(outcomes, k, n - 1, vendor);
    }
}

/// Before a run reaches `Building` it is `Idle`.
proof fn lemma_before_building(outcomes: Seq<bool>, k: int, n: int, vendor: bool)
    requires
        0 <= n <= k,
        stage_at(outcomes, k, vendor) == Stage::Building,
    ensures
        n < k ==> stage_at(outcomes, n, vendor) == Stage::Idle,
    decreases k - n,
{
    if n < k {
        if n + 1 < k {
            lemma_before_building(outcomes, k, n + 1, vendor);
        }
        assert(stage_at(outcomes, n + 1, vendor) == stage_at(outcomes, n, vendor).next_spec(
            outcomes[n],
            vendor,
        ));
    }
}

/// If the build fails, no stage of the run, before or after, asks for a
/// directory to be made or a file to be copied.
pub proof fn lemma_failed_build_writes_nothing(outcomes: Seq<bool>, k: int, n: int, vendor: bool)
    requires
        0 <= k < outcomes.len(),
        0 <= n,
        stage_at(outcomes, k, vendor) == Stage::Building,
        !outcomes[k],
    ensures
        !stage_at(outcomes, n, vendor).work_spec().writes_disk(),
        n > k ==> stage_at(outcomes, n, vendor) == Stage::BuildFailed,
{
    if n < k {
        lemma_before_building(outcomes, k, n, vendor);
    } else if n > k {
        assert(stage_at(outcomes, k + 1, vendor) == Stage::BuildFailed);
        lemma_final_stays(outcomes, k + 1, n, vendor);
    }
}

/// A run that is past the build went through `Building` with success.
pub proof fn lemma_built_before(outcomes: Seq<bool>, n: int, vendor: bool)
    requires
        stage_at(outcomes, n, vendor).after_build(),
    ensures
        exists|b: int|
            0 <= b < n && #[trigger] stage_at(outcomes, b, vendor) == Stage::Building
                && outcomes[b],
    decreases n,
{
    if n > 0 {
        let prev = stage_at(outcomes, n - 1, vendor);
        if prev == Stage::Building {
            assert(outcomes[n - 1]);
        } else {
            assert(prev.after_build());
            lemma_built_before(outcomes, n - 1, vendor);
        }
    }
}

/// A run that is past locating went through `Locating` with success.
pub proof fn lemma_located_before(outcomes: Seq<bool>, n: int, vendor: bool)
    requires
        stage_at(outcomes, n, vendor).after_locate(),
    ensures
        exists|k: int|
            0 <= k < n && #[trigger] stage_at(outcomes, k, vendor) == Stage::Locating
                && outcomes[k],
    decreases n,
{
    if n > 0 {
        let prev = stage_at(outcomes, n - 1, vendor);
        if prev == Stage::Locating {
            assert(outcomes[n - 1]);
        } else {
            assert(prev.after_locate());
            lemma_located_before(outcomes, n - 1, vendor);
        }
    }
}

/// Nothing is written to disk before the build has succeeded and, after it,
/// the manifest has been resolved: a stage that writes is preceded by a
/// successful `Locating`, and that by a successful `Building`.
pub proof fn lemma_writes_follow_locate(outcomes: Seq<bool>, n: int, vendor: bool)
    requires
        stage_at(outcomes, n, vendor).work_spec().writes_disk(),
    ensures
        exists|b: int, k: int|
            0 <= b < k < n && #[trigger] stage_at(outcomes, b, vendor) == Stage::Building
                && outcomes[b] && #[trigger] stage_at(outcomes, k, vendor) == Stage::Locating
                && outcomes[k],
{
    lemma_located_before(outcomes, n, vendor);
    let k = choose|k: int|
        0 <= k < n && #[trigger] stage_at(outcomes, k, vendor) == Stage::Locating && outcomes[k];
    lemma_built_before(outcomes, k, vendor);
    let b = choose|b: int|
        0 <= b < k && #[trigger] stage_at(outcomes, b, vendor) == Stage::Building && outcomes[b];
    assert(stage_at(outcomes, b, vendor) == Stage::Building && stage_at(outcomes, k, vendor)
        == Stage::Locating);
}

} // verus!
