//! Carrying a release over to the acquire point of a later commit, and making timelines.
//!
//! Where the kernel takes a sync file over, the point is reached by itself. Where it does not, the
//! point is signaled by hand, but never before the release itself was waited for. What the kernel
//! does is up to the caller, who performs the step at hand and reports whether it succeeded.

use vstd::prelude::*;

verus! {

/// Carries the end of a loopback release over to an acquire point.
#[derive(Debug, Clone, Copy)]
pub enum WaylandAcquirePointTransfer {
    /// Export a sync file of the release.
    ExportRelease,
    /// Have the acquire point take over the sync file.
    ImportIntoAcquirePoint,
    /// Wait for the release on the processor.
    WaitForRelease,
    /// Signal the acquire point.
    SignalAcquirePoint,
    /// All is done; `true` if the acquire point will be reached.
    Finished(bool),
    /// A step failed that must not.
    Failed(&'static str),
}

impl WaylandAcquirePointTransfer {
    pub fn begin() -> (r: Self)
        ensures
            r is ExportRelease,
    {
        WaylandAcquirePointTransfer::ExportRelease
    }

    /// What comes after this step, depending on whether it succeeded.
    pub open spec fn after(self, succeeded: bool) -> Self {
        match self {
            WaylandAcquirePointTransfer::ExportRelease => if succeeded {
                WaylandAcquirePointTransfer::ImportIntoAcquirePoint
            } else {
                WaylandAcquirePointTransfer::Finished(false)
            },
            WaylandAcquirePointTransfer::ImportIntoAcquirePoint => if succeeded {
                WaylandAcquirePointTransfer::Finished(true)
            } else {
                WaylandAcquirePointTransfer::WaitForRelease
            },
            WaylandAcquirePointTransfer::WaitForRelease => if succeeded {
                WaylandAcquirePointTransfer::SignalAcquirePoint
            } else {
                WaylandAcquirePointTransfer::Failed(
                    "wait for loopback release sync before signaling Wayland acquire point",
                )
            },
            WaylandAcquirePointTransfer::SignalAcquirePoint => if succeeded {
                WaylandAcquirePointTransfer::Finished(true)
            } else {
                WaylandAcquirePointTransfer::Failed(
                    "signal Wayland acquire point after CPU wait fallback",
                )
            },
            _ => self,
        }
    }

    pub fn next(self, succeeded: bool) -> (r: Self)
        ensures
            r == self.after(succeeded),
    {
        match self {
            WaylandAcquirePointTransfer::ExportRelease => if succeeded {
                WaylandAcquirePointTransfer::ImportIntoAcquirePoint
            } else {
                WaylandAcquirePointTransfer::Finished(false)
            },
            WaylandAcquirePointTransfer::ImportIntoAcquirePoint => if succeeded {
                WaylandAcquirePointTransfer::Finished(true)
            } else {
                WaylandAcquirePointTransfer::WaitForRelease
            },
            WaylandAcquirePointTransfer::WaitForRelease => if succeeded {
                WaylandAcquirePointTransfer::SignalAcquirePoint
            } else {
                WaylandAcquirePointTransfer::Failed(
                    "wait for loopback release sync before signaling Wayland acquire point",
                )
            },
            WaylandAcquirePointTransfer::SignalAcquirePoint => if succeeded {
                WaylandAcquirePointTransfer::Finished(true)
            } else {
                WaylandAcquirePointTransfer::Failed(
                    "signal Wayland acquire point after CPU wait fallback",
                )
            },
            _ => self,
        }
    }

    /// The step that is reached once the steps before had these outcomes.
    pub open spec fn reached(outcomes: Seq<bool>) -> Self
        decreases outcomes.len(),
    {
        if outcomes.len() == 0 {
            WaylandAcquirePointTransfer::ExportRelease
        } else {
            Self::reached(outcomes.drop_last()).after(outcomes.last())
        }
    }
}

/// Carries the release of one commit over to the acquire point of the next.
#[derive(Debug, Clone, Copy)]
pub enum WaylandReacquirePointTransfer {
    /// Wait for the release point.
    WaitForReleasePoint,
    /// Export a sync file of the release point.
    ExportReleasePoint,
    /// Have the acquire point take over the sync file.
    ImportIntoAcquirePoint,
    /// Signal the acquire point.
    SignalAcquirePoint,
    /// All is done, and the acquire point will be reached.
    Finished,
    /// A step failed that must not.
    Failed(&'static str),
}

impl WaylandReacquirePointTransfer {
    pub fn begin() -> (r: Self)
        ensures
            r is WaitForReleasePoint,
    {
        WaylandReacquirePointTransfer::WaitForReleasePoint
    }

    /// What comes after this step, depending on whether it succeeded.
    pub open spec fn after(self, succeeded: bool) -> Self {
        match self {
            WaylandReacquirePointTransfer::WaitForReleasePoint => if succeeded {
                WaylandReacquirePointTransfer::ExportReleasePoint
            } else {
                WaylandReacquirePointTransfer::Failed(
                    "previous sampled dmabuf release should signal Wayland release point",
                )
            },
            WaylandReacquirePointTransfer::ExportReleasePoint => if succeeded {
                WaylandReacquirePointTransfer::ImportIntoAcquirePoint
            } else {
                WaylandReacquirePointTransfer::SignalAcquirePoint
            },
            WaylandReacquirePointTransfer::ImportIntoAcquirePoint => if succeeded {
                WaylandReacquirePointTransfer::Finished
            } else {
                WaylandReacquirePointTransfer::SignalAcquirePoint
            },
            WaylandReacquirePointTransfer::SignalAcquirePoint => if succeeded {
                WaylandReacquirePointTransfer::Finished
            } else {
                WaylandReacquirePointTransfer::Failed(
                    "signal Wayland reacquire point after release-point wait fallback",
                )
            },
            _ => self,
        }
    }

    pub fn next(self, succeeded: bool) -> (r: Self)
        ensures
            r == self.after(succeeded),
    {
        match self {
            WaylandReacquirePointTransfer::WaitForReleasePoint => if succeeded {
                WaylandReacquirePointTransfer::ExportReleasePoint
            } else {
                WaylandReacquirePointTransfer::Failed(
                    "previous sampled dmabuf release should signal Wayland release point",
                )
            },
            WaylandReacquirePointTransfer::ExportReleasePoint => if succeeded {
                WaylandReacquirePointTransfer::ImportIntoAcquirePoint
            } else {
                WaylandReacquirePointTransfer::SignalAcquirePoint
            },
            WaylandReacquirePointTransfer::ImportIntoAcquirePoint => if succeeded {
                WaylandReacquirePointTransfer::Finished
            } else {
                WaylandReacquirePointTransfer::SignalAcquirePoint
            },
            WaylandReacquirePointTransfer::SignalAcquirePoint => if succeeded {
                WaylandReacquirePointTransfer::Finished
            } else {
                WaylandReacquirePointTransfer::Failed(
                    "signal Wayland reacquire point after release-point wait fallback",
                )
            },
            _ => self,
        }
    }

    /// The step that is reached once the steps before had these outcomes.
    pub open spec fn reached(outcomes: Seq<bool>) -> Self
        decreases outcomes.len(),
    {
        if outcomes.len() == 0 {
            WaylandReacquirePointTransfer::WaitForReleasePoint
        } else {
            Self::reached(outcomes.drop_last()).after(outcomes.last())
        }
    }
}

/// The acquire point is signaled by hand only once the release was exported, could not be taken
/// over, and was waited for. It will be reached exactly if it took the release over, or if it was
/// signaled after that wait. Four steps are always enough.
pub proof fn law_acquire_points_follow_their_release(outcomes: Seq<bool>)
    ensures
        WaylandAcquirePointTransfer::reached(outcomes) is SignalAcquirePoint ==> outcomes.len() == 3
            && outcomes[0] && !outcomes[1] && outcomes[2],
        WaylandAcquirePointTransfer::reached(outcomes) == WaylandAcquirePointTransfer::Finished(
            true,
        ) <==> {
            ||| outcomes.len() >= 2 && outcomes[0] && outcomes[1]
            ||| outcomes.len() >= 4 && outcomes[0] && !outcomes[1] && outcomes[2] && outcomes[3]
        },
        outcomes.len() >= 4 ==> {
            ||| WaylandAcquirePointTransfer::reached(outcomes) is Finished
            ||| WaylandAcquirePointTransfer::reached(outcomes) is Failed
        },
    decreases outcomes.len(),
{
    lemma_acquire_prefix(outcomes);
}

proof fn lemma_acquire_prefix(outcomes: Seq<bool>)
    ensures
        ({
            let step = WaylandAcquirePointTransfer::reached(outcomes);
            &&& step is ExportRelease <==> outcomes.len() == 0
            &&& step is ImportIntoAcquirePoint <==> outcomes.len() == 1 && outcomes[0]
            &&& step is WaitForRelease <==> outcomes.len() == 2 && outcomes[0] && !outcomes[1]
            &&& step is SignalAcquirePoint <==> outcomes.len() == 3 && outcomes[0] && !outcomes[1]
                && outcomes[2]
            &&& step == WaylandAcquirePointTransfer::Finished(true) <==> {
                ||| outcomes.len() >= 2 && outcomes[0] && outcomes[1]
                ||| outcomes.len() >= 4 && outcomes[0] && !outcomes[1] && outcomes[2] && outcomes[3]
            }
        }),
    decreases outcomes.len(),
{
    if outcomes.len() > 0 {
        let before = outcomes.drop_last();
        lemma_acquire_prefix(before);
        assert(forall|i: int| 0 <= i < before.len() ==> before[i] == outcomes[i]);
        assert(outcomes.last() == outcomes[outcomes.len() - 1]);
    }
}

/// Nothing is carried over before the release point was reached: every step after the first one
/// follows a successful wait. The acquire point will be reached exactly if it took the release
/// over or was signaled. Four steps are always enough.
pub proof fn law_reacquire_points_follow_their_release(outcomes: Seq<bool>)
    ensures
        ({
            let step = WaylandReacquirePointTransfer::reached(outcomes);
            &&& !(step is WaitForReleasePoint) && !(step is Failed) ==> outcomes[0]
            &&& step is Finished <==> {
                ||| outcomes.len() >= 3 && outcomes[0] && outcomes[2]
                ||| outcomes.len() >= 4 && outcomes[0] && outcomes[1] && !outcomes[2] && outcomes[3]
            }
            &&& outcomes.len() >= 4 ==> step is Finished || step is Failed
        }),
    decreases outcomes.len(),
{
    lemma_reacquire_prefix(outcomes);
}

proof fn lemma_reacquire_prefix(outcomes: Seq<bool>)
    ensures
        ({
            let step = WaylandReacquirePointTransfer::reached(outcomes);
            &&& step is WaitForReleasePoint <==> outcomes.len() == 0
            &&& step is ExportReleasePoint <==> outcomes.len() == 1 && outcomes[0]
            &&& step is ImportIntoAcquirePoint <==> outcomes.len() == 2 && outcomes[0]
                && outcomes[1]
            &&& step is SignalAcquirePoint <==> outcomes[0] && ((outcomes.len() == 2
                && !outcomes[1]) || (outcomes.len() == 3 && outcomes[1] && !outcomes[2]))
            &&& step is Finished <==> {
                ||| outcomes.len() >= 3 && outcomes[0] && outcomes[2]
                ||| outcomes.len() >= 4 && outcomes[0] && outcomes[1] && !outcomes[2] && outcomes[3]
            }
        }),
    decreases outcomes.len(),
{
    if outcomes.len() > 0 {
        let before = outcomes.drop_last();
        lemma_reacquire_prefix(before);
        assert(forall|i: int| 0 <= i < before.len() ==> before[i] == outcomes[i]);
        assert(outcomes.last() == outcomes[outcomes.len() - 1]);
    }
}

/// Makes a timeline that can be handed to a client: an object of the kernel is made, exported, and
/// then not needed any more.
#[derive(Debug, Clone, Copy)]
pub enum SyncobjTimelineExport {
    /// Create the object.
    Create,
    /// Export the object.
    Export,
    /// Destroy the object after its export.
    Destroy,
    /// Destroy the object although it was not exported.
    DestroyUnexported,
    /// The timeline is there.
    Finished,
    /// A step failed.
    Failed(&'static str),
}

impl SyncobjTimelineExport {
    pub fn begin() -> (r: Self)
        ensures
            r is Create,
    {
        SyncobjTimelineExport::Create
    }

    /// What comes after this step, depending on whether it succeeded.
    pub open spec fn after(self, succeeded: bool) -> Self {
        match self {
            SyncobjTimelineExport::Create => if succeeded {
                SyncobjTimelineExport::Export
            } else {
                SyncobjTimelineExport::Failed("create syncobj")
            },
            SyncobjTimelineExport::Export => if succeeded {
                SyncobjTimelineExport::Destroy
            } else {
                SyncobjTimelineExport::DestroyUnexported
            },
            SyncobjTimelineExport::Destroy => if succeeded {
                SyncobjTimelineExport::Finished
            } else {
                SyncobjTimelineExport::Failed("destroy exported source syncobj")
            },
            SyncobjTimelineExport::DestroyUnexported => SyncobjTimelineExport::Failed(
                "export syncobj fd",
            ),
            _ => self,
        }
    }

    pub fn next(self, succeeded: bool) -> (r: Self)
        ensures
            r == self.after(succeeded),
    {
        match self {
            SyncobjTimelineExport::Create => if succeeded {
                SyncobjTimelineExport::Export
            } else {
                SyncobjTimelineExport::Failed("create syncobj")
            },
            SyncobjTimelineExport::Export => if succeeded {
                SyncobjTimelineExport::Destroy
            } else {
                SyncobjTimelineExport::DestroyUnexported
            },
            SyncobjTimelineExport::Destroy => if succeeded {
                SyncobjTimelineExport::Finished
            } else {
                SyncobjTimelineExport::Failed("destroy exported source syncobj")
            },
            SyncobjTimelineExport::DestroyUnexported => SyncobjTimelineExport::Failed(
                "export syncobj fd",
            ),
            _ => self,
        }
    }

    /// The step that is reached once the steps before had these outcomes.
    pub open spec fn reached(outcomes: Seq<bool>) -> Self
        decreases outcomes.len(),
    {
        if outcomes.len() == 0 {
            SyncobjTimelineExport::Create
        } else {
            Self::reached(outcomes.drop_last()).after(outcomes.last())
        }
    }

    /// How often the object was destroyed, or was tried to be, on the way.
    pub open spec fn destructions(outcomes: Seq<bool>) -> nat
        decreases outcomes.len(),
    {
        if outcomes.len() == 0 {
            0
        } else {
            let step = Self::reached(outcomes.drop_last());
            Self::destructions(outcomes.drop_last()) + if step is Destroy
                || step is DestroyUnexported {
                1nat
            } else {
                0nat
            }
        }
    }
}

/// An object that was created is destroyed exactly once, whatever fails, and after three steps all
/// is over. The timeline is there exactly if every step succeeded.
pub proof fn law_exported_objects_are_destroyed_once(outcomes: Seq<bool>)
    ensures
        ({
            let step = SyncobjTimelineExport::reached(outcomes);
            &&& outcomes.len() >= 3 ==> step is Finished || step is Failed
            &&& step is Finished || step is Failed ==> SyncobjTimelineExport::destructions(outcomes)
                == if outcomes[0] {
                1nat
            } else {
                0nat
            }
            &&& step is Finished <==> outcomes.len() >= 3 && outcomes[0] && outcomes[1]
                && outcomes[2]
        }),
{
    lemma_export_prefix(outcomes);
}

proof fn lemma_export_prefix(outcomes: Seq<bool>)
    ensures
        ({
            let step = SyncobjTimelineExport::reached(outcomes);
            let destructions = SyncobjTimelineExport::destructions(outcomes);
            &&& step is Create <==> outcomes.len() == 0
            &&& step is Export <==> outcomes.len() == 1 && outcomes[0]
            &&& step is Destroy <==> outcomes.len() == 2 && outcomes[0] && outcomes[1]
            &&& step is DestroyUnexported <==> outcomes.len() == 2 && outcomes[0] && !outcomes[1]
            &&& step is Finished <==> outcomes.len() >= 3 && outcomes[0] && outcomes[1]
                && outcomes[2]
            &&& !(step is Finished) && !(step is Failed) ==> destructions == 0
            &&& step is Finished || step is Failed ==> destructions == if outcomes[0] {
                1nat
            } else {
                0nat
            }
        }),
    decreases outcomes.len(),
{
    if outcomes.len() > 0 {
        let before = outcomes.drop_last();
        lemma_export_prefix(before);
        assert(forall|i: int| 0 <= i < before.len() ==> before[i] == outcomes[i]);
        assert(outcomes.last() == outcomes[outcomes.len() - 1]);
    }
}

/// Each step of carrying a release over to an acquire point leads on by what it was for: a release
/// without a sync file ends it, one that the point took over reaches the point, and one that it did
/// not is waited for before the point is signaled. What is over stays over.
pub proof fn law_acquire_transfers_go_step_by_step(
    first: WaylandAcquirePointTransfer,
    step: WaylandAcquirePointTransfer,
    succeeded: bool,
    r: WaylandAcquirePointTransfer,
)
    requires
        call_ensures(WaylandAcquirePointTransfer::begin, (), first),
        call_ensures(WaylandAcquirePointTransfer::next, (step, succeeded), r),
    ensures
        first is ExportRelease,
        r is ExportRelease ==> false,
        r is ImportIntoAcquirePoint <==> step is ExportRelease && succeeded,
        r is WaitForRelease <==> step is ImportIntoAcquirePoint && !succeeded,
        r is SignalAcquirePoint <==> step is WaitForRelease && succeeded,
        r == WaylandAcquirePointTransfer::Finished(true) <==> step
            == WaylandAcquirePointTransfer::Finished(true) || (succeeded && (step
            is ImportIntoAcquirePoint || step is SignalAcquirePoint)),
        r == WaylandAcquirePointTransfer::Finished(false) <==> step
            == WaylandAcquirePointTransfer::Finished(false) || (step is ExportRelease
            && !succeeded),
        r is Failed <==> step is Failed || (!succeeded && (step is WaitForRelease || step
            is SignalAcquirePoint)),
        step is Failed ==> r == step,
{
}

/// Each step of carrying a release over to the next acquire point leads on by what it was for: the
/// release point is waited for first, its sync file is taken over where there is one and the point
/// takes it, and the point is signaled otherwise. What is over stays over.
pub proof fn law_reacquire_transfers_go_step_by_step(
    first: WaylandReacquirePointTransfer,
    step: WaylandReacquirePointTransfer,
    succeeded: bool,
    r: WaylandReacquirePointTransfer,
)
    requires
        call_ensures(WaylandReacquirePointTransfer::begin, (), first),
        call_ensures(WaylandReacquirePointTransfer::next, (step, succeeded), r),
    ensures
        first is WaitForReleasePoint,
        r is WaitForReleasePoint ==> false,
        r is ExportReleasePoint <==> step is WaitForReleasePoint && succeeded,
        r is ImportIntoAcquirePoint <==> step is ExportReleasePoint && succeeded,
        r is SignalAcquirePoint <==> !succeeded && (step is ExportReleasePoint || step
            is ImportIntoAcquirePoint),
        r is Finished <==> step is Finished || (succeeded && (step is ImportIntoAcquirePoint || step
            is SignalAcquirePoint)),
        r is Failed <==> step is Failed || (!succeeded && (step is WaitForReleasePoint || step
            is SignalAcquirePoint)),
        step is Failed ==> r == step,
{
}

/// Each step of making a timeline leads on by what it was for: what was created is exported and then
/// destroyed, and destroyed as well if it was not exported, which fails then whatever comes of it.
pub proof fn law_timeline_exports_go_step_by_step(
    first: SyncobjTimelineExport,
    step: SyncobjTimelineExport,
    succeeded: bool,
    r: SyncobjTimelineExport,
)
    requires
        call_ensures(SyncobjTimelineExport::begin, (), first),
        call_ensures(SyncobjTimelineExport::next, (step, succeeded), r),
    ensures
        first is Create,
        r is Create ==> false,
        r is Export <==> step is Create && succeeded,
        r is Destroy <==> step is Export && succeeded,
        r is DestroyUnexported <==> step is Export && !succeeded,
        r is Finished <==> step is Finished || (step is Destroy && succeeded),
        r is Failed <==> step is Failed || step is DestroyUnexported || (!succeeded && (step
            is Create || step is Destroy)),
        step is Failed ==> r == step,
{
}

} // verus!
