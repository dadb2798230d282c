//! Fences and sync points.
//!
//! What a fence says about itself is known here. Waiting for one is up to the machine: a function
//! that has to wait is handed one that does, and says what it makes of the outcome.

use vstd::prelude::*;

use crate::error::VulkanError;
use crate::syncobj::DrmSyncPoint;

verus! {

/// A wait was interrupted.
#[derive(Debug, Clone, Copy, PartialEq, Eq, Structural)]
pub struct Interrupted;

/// Something on the device or in the kernel that is reached at some time.
pub trait Fence {
    /// The fence was reached.
    spec fn signaled(&self) -> bool;

    /// The fence can be handed on as a sync file.
    spec fn exportable(&self) -> bool;

    /// An export hands out a descriptor.
    spec fn hands_out_descriptor(&self) -> bool;

    /// The fence may be asked for an export.
    spec fn may_export(&self) -> bool;

    /// Every fence that was not reached yet may be asked for an export.
    proof fn unreached_may_export(&self)
        ensures
            !self.signaled() ==> self.may_export(),
    ;

    fn is_signaled(&self) -> (r: bool)
        ensures
            r == self.signaled(),
    ;

    fn is_exportable(&self) -> (r: bool)
        ensures
            r == self.exportable(),
    ;

    /// Whether an export hands out a descriptor.
    fn export(&self) -> (r: bool)
        requires
            self.may_export(),
        ensures
            r == self.hands_out_descriptor(),
    ;
}

/// A fence that is never reached and whose wait is interrupted.
#[derive(Debug, Clone, Copy, PartialEq, Eq, Structural)]
pub struct InterruptedFence;

impl InterruptedFence {
    /// A wait is always interrupted.
    pub fn wait(&self) -> (r: Result<(), Interrupted>)
        ensures
            r == Err::<(), Interrupted>(Interrupted),
    {
        Err(Interrupted)
    }
}

impl Fence for InterruptedFence {
    open spec fn signaled(&self) -> bool {
        false
    }

    open spec fn exportable(&self) -> bool {
        false
    }

    open spec fn hands_out_descriptor(&self) -> bool {
        false
    }

    open spec fn may_export(&self) -> bool {
        true
    }

    proof fn unreached_may_export(&self) {
    }

    fn is_signaled(&self) -> (r: bool) {
        false
    }

    fn is_exportable(&self) -> (r: bool) {
        false
    }

    fn export(&self) -> (r: bool) {
        false
    }
}

/// A fence that was reached and that says it is exportable, but that must not be exported: there
/// is nothing left to wait for.
#[derive(Debug, Clone, Copy, PartialEq, Eq, Structural)]
pub struct SignaledExportableFence;

impl SignaledExportableFence {
    /// There is nothing to wait for.
    pub fn wait(&self) -> (r: Result<(), Interrupted>)
        ensures
            r == Ok::<(), Interrupted>(()),
    {
        Ok(())
    }
}

impl Fence for SignaledExportableFence {
    open spec fn signaled(&self) -> bool {
        true
    }

    open spec fn exportable(&self) -> bool {
        true
    }

    open spec fn hands_out_descriptor(&self) -> bool {
        false
    }

    open spec fn may_export(&self) -> bool {
        false
    }

    proof fn unreached_may_export(&self) {
    }

    fn is_signaled(&self) -> (r: bool) {
        true
    }

    fn is_exportable(&self) -> (r: bool) {
        true
    }

    fn export(&self) -> (r: bool) {
        false
    }
}

/// A fence that was not reached yet and that can be waited for.
#[derive(Debug, Clone, Copy, PartialEq, Eq, Structural)]
pub struct CpuWaitFence {
    pub exportable: bool,
    pub exports_fd: bool,
}

impl CpuWaitFence {
    /// A wait always succeeds.
    pub fn wait(&self) -> (r: Result<(), Interrupted>)
        ensures
            r == Ok::<(), Interrupted>(()),
    {
        Ok(())
    }
}

impl Fence for CpuWaitFence {
    open spec fn signaled(&self) -> bool {
        false
    }

    open spec fn exportable(&self) -> bool {
        self.exportable
    }

    open spec fn hands_out_descriptor(&self) -> bool {
        self.exports_fd
    }

    open spec fn may_export(&self) -> bool {
        true
    }

    proof fn unreached_may_export(&self) {
    }

    fn is_signaled(&self) -> (r: bool) {
        false
    }

    fn is_exportable(&self) -> (r: bool) {
        self.exportable
    }

    fn export(&self) -> (r: bool) {
        self.exports_fd
    }
}

/// A sync file. `ready` is what a poll of its descriptor said last; one that nobody has polled is
/// not ready.
#[derive(Debug, Clone, Copy, PartialEq, Eq, Structural)]
pub struct SyncFileFence {
    pub fd: i32,
    pub ready: bool,
}

impl Fence for SyncFileFence {
    open spec fn signaled(&self) -> bool {
        self.ready
    }

    open spec fn exportable(&self) -> bool {
        true
    }

    open spec fn hands_out_descriptor(&self) -> bool {
        true
    }

    open spec fn may_export(&self) -> bool {
        true
    }

    proof fn unreached_may_export(&self) {
    }

    fn is_signaled(&self) -> (r: bool) {
        self.ready
    }

    fn is_exportable(&self) -> (r: bool) {
        true
    }

    fn export(&self) -> (r: bool) {
        true
    }
}

/// A point on a client's timeline. `reached` is what the kernel said when it was asked last; a point
/// that nobody has asked about is not reached.
#[derive(Debug, Clone, Copy, PartialEq, Eq, Structural)]
pub struct TimelineFence {
    pub point: DrmSyncPoint,
    pub reached: bool,
}

impl Fence for TimelineFence {
    open spec fn signaled(&self) -> bool {
        self.reached
    }

    open spec fn exportable(&self) -> bool {
        self.point.live
    }

    open spec fn hands_out_descriptor(&self) -> bool {
        self.point.live
    }

    open spec fn may_export(&self) -> bool {
        true
    }

    proof fn unreached_may_export(&self) {
    }

    fn is_signaled(&self) -> (r: bool) {
        self.reached
    }

    fn is_exportable(&self) -> (r: bool) {
        self.point.live
    }

    fn export(&self) -> (r: bool) {
        self.point.live
    }
}

/// One of the fences above.
#[derive(Debug, Clone, Copy, PartialEq, Eq, Structural)]
pub enum SyncFence {
    Interrupted(InterruptedFence),
    SignaledExportable(SignaledExportableFence),
    CpuWait(CpuWaitFence),
    SyncFile(SyncFileFence),
    Timeline(TimelineFence),
}

impl Fence for SyncFence {
    open spec fn signaled(&self) -> bool {
        match self {
            SyncFence::Interrupted(fence) => fence.signaled(),
            SyncFence::SignaledExportable(fence) => fence.signaled(),
            SyncFence::CpuWait(fence) => fence.signaled(),
            SyncFence::SyncFile(fence) => fence.signaled(),
            SyncFence::Timeline(fence) => fence.signaled(),
        }
    }

    open spec fn exportable(&self) -> bool {
        match self {
            SyncFence::Interrupted(fence) => fence.exportable(),
            SyncFence::SignaledExportable(fence) => fence.exportable(),
            SyncFence::CpuWait(fence) => fence.exportable(),
            SyncFence::SyncFile(fence) => fence.exportable(),
            SyncFence::Timeline(fence) => fence.exportable(),
        }
    }

    open spec fn hands_out_descriptor(&self) -> bool {
        match self {
            SyncFence::Interrupted(fence) => fence.hands_out_descriptor(),
            SyncFence::SignaledExportable(fence) => fence.hands_out_descriptor(),
            SyncFence::CpuWait(fence) => fence.hands_out_descriptor(),
            SyncFence::SyncFile(fence) => fence.hands_out_descriptor(),
            SyncFence::Timeline(fence) => fence.hands_out_descriptor(),
        }
    }

    open spec fn may_export(&self) -> bool {
        match self {
            SyncFence::Interrupted(fence) => fence.may_export(),
            SyncFence::SignaledExportable(fence) => fence.may_export(),
            SyncFence::CpuWait(fence) => fence.may_export(),
            SyncFence::SyncFile(fence) => fence.may_export(),
            SyncFence::Timeline(fence) => fence.may_export(),
        }
    }

    proof fn unreached_may_export(&self) {
    }

    fn is_signaled(&self) -> (r: bool) {
        match self {
            SyncFence::Interrupted(fence) => fence.is_signaled(),
            SyncFence::SignaledExportable(fence) => fence.is_signaled(),
            SyncFence::CpuWait(fence) => fence.is_signaled(),
            SyncFence::SyncFile(fence) => fence.is_signaled(),
            SyncFence::Timeline(fence) => fence.is_signaled(),
        }
    }

    fn is_exportable(&self) -> (r: bool) {
        match self {
            SyncFence::Interrupted(fence) => fence.is_exportable(),
            SyncFence::SignaledExportable(fence) => fence.is_exportable(),
            SyncFence::CpuWait(fence) => fence.is_exportable(),
            SyncFence::SyncFile(fence) => fence.is_exportable(),
            SyncFence::Timeline(fence) => fence.is_exportable(),
        }
    }

    fn export(&self) -> (r: bool) {
        match self {
            SyncFence::Interrupted(fence) => fence.export(),
            SyncFence::SignaledExportable(fence) => fence.export(),
            SyncFence::CpuWait(fence) => fence.export(),
            SyncFence::SyncFile(fence) => fence.export(),
            SyncFence::Timeline(fence) => fence.export(),
        }
    }
}

/// A point in time that work can be ordered after. Without a fence it was reached already.
#[derive(Debug, Clone, Copy, PartialEq, Eq, Structural)]
pub struct SyncPoint {
    pub fence: Option<SyncFence>,
}

impl SyncPoint {
    pub open spec fn reached(self) -> bool {
        match self.fence {
            Some(fence) => fence.signaled(),
            None => true,
        }
    }

    pub open spec fn exportable(self) -> bool {
        self.fence matches Some(fence) && fence.exportable()
    }

    /// An export of the point hands out a descriptor.
    pub open spec fn exports(self) -> bool {
        self.fence matches Some(fence) && fence.hands_out_descriptor()
    }

    /// The point may be asked for an export.
    pub open spec fn may_export(self) -> bool {
        self.fence matches Some(fence) ==> fence.may_export()
    }

    /// A point that was reached.
    pub fn signaled() -> (r: Self)
        ensures
            r.fence is None,
    {
        SyncPoint { fence: None }
    }

    pub fn contains_fence(&self) -> (r: bool)
        ensures
            r == self.fence is Some,
    {
        self.fence.is_some()
    }

    pub fn is_reached(&self) -> (r: bool)
        ensures
            r == self.reached(),
    {
        match &self.fence {
            Some(fence) => fence.is_signaled(),
            None => true,
        }
    }

    pub fn is_exportable(&self) -> (r: bool)
        ensures
            r == self.exportable(),
    {
        match &self.fence {
            Some(fence) => fence.is_exportable(),
            None => false,
        }
    }

    /// The point, once the machine was asked and has said whether it is reached. Only sync files
    /// and timelines can be asked about.
    pub open spec fn asked(self, reached: bool) -> Self {
        match self.fence {
            Some(SyncFence::SyncFile(file)) => SyncPoint {
                fence: Some(SyncFence::SyncFile(SyncFileFence { ready: reached, ..file })),
            },
            Some(SyncFence::Timeline(timeline)) => SyncPoint {
                fence: Some(SyncFence::Timeline(TimelineFence { reached, ..timeline })),
            },
            _ => self,
        }
    }

    /// Takes note of whether the machine says that the point is reached.
    pub fn polled(self, reached: bool) -> (r: Self)
        ensures
            r == self.asked(reached),
    {
        match self.fence {
            Some(SyncFence::SyncFile(file)) => SyncPoint {
                fence: Some(SyncFence::SyncFile(SyncFileFence { fd: file.fd, ready: reached })),
            },
            Some(SyncFence::Timeline(timeline)) => SyncPoint {
                fence: Some(
                    SyncFence::Timeline(TimelineFence { point: timeline.point, reached }),
                ),
            },
            _ => self,
        }
    }

    /// What waiting for this point through `wait` gives: the outcome `r` of the wait for its fence,
    /// unless the point is reached.
    pub open spec fn waited<W: FnOnce(SyncFence) -> Result<(), Interrupted>>(
        self,
        wait: W,
        r: Result<(), Interrupted>,
    ) -> bool {
        if self.reached() {
            r == Ok::<(), Interrupted>(())
        } else {
            call_ensures(wait, (self.fence->0,), r)
        }
    }

    /// Waits until the point is reached. `wait` waits for a fence.
    pub fn wait<W: FnOnce(SyncFence) -> Result<(), Interrupted>>(&self, wait: W) -> (r: Result<
        (),
        Interrupted,
    >)
        requires
            forall|fence: SyncFence| #[trigger] call_requires(wait, (fence,)),
        ensures
            self.waited(wait, r),
    {
        if self.is_reached() {
            return Ok(());
        }
        match self.fence {
            Some(fence) => wait(fence),
            None => Ok(()),
        }
    }

    /// Whether an export hands out a descriptor.
    pub fn export(&self) -> (r: bool)
        requires
            self.may_export(),
        ensures
            r == self.exports(),
    {
        match &self.fence {
            Some(fence) => fence.export(),
            None => false,
        }
    }
}

/// What the outcome of a wait for a fence means to whoever had to wait.
pub fn finish_host_wait(outcome: Result<(), Interrupted>) -> (r: Result<(), VulkanError>)
    ensures
        r == (match outcome {
            Ok(()) => Ok(()),
            Err(_) => Err(VulkanError::SyncInterrupted),
        }),
{
    match outcome {
        Ok(()) => Ok(()),
        Err(_) => Err(VulkanError::SyncInterrupted),
    }
}

impl From<InterruptedFence> for SyncPoint {
    fn from(fence: InterruptedFence) -> (r: Self) {
        SyncPoint { fence: Some(SyncFence::Interrupted(fence)) }
    }
}

impl vstd::std_specs::convert::FromSpecImpl<InterruptedFence> for SyncPoint {
    open spec fn obeys_from_spec() -> bool {
        true
    }

    open spec fn from_spec(fence: InterruptedFence) -> Self {
        SyncPoint { fence: Some(SyncFence::Interrupted(fence)) }
    }
}

impl From<SignaledExportableFence> for SyncPoint {
    fn from(fence: SignaledExportableFence) -> (r: Self) {
        SyncPoint { fence: Some(SyncFence::SignaledExportable(fence)) }
    }
}

impl vstd::std_specs::convert::FromSpecImpl<SignaledExportableFence> for SyncPoint {
    open spec fn obeys_from_spec() -> bool {
        true
    }

    open spec fn from_spec(fence: SignaledExportableFence) -> Self {
        SyncPoint { fence: Some(SyncFence::SignaledExportable(fence)) }
    }
}

impl From<CpuWaitFence> for SyncPoint {
    fn from(fence: CpuWaitFence) -> (r: Self) {
        SyncPoint { fence: Some(SyncFence::CpuWait(fence)) }
    }
}

impl vstd::std_specs::convert::FromSpecImpl<CpuWaitFence> for SyncPoint {
    open spec fn obeys_from_spec() -> bool {
        true
    }

    open spec fn from_spec(fence: CpuWaitFence) -> Self {
        SyncPoint { fence: Some(SyncFence::CpuWait(fence)) }
    }
}

impl From<SyncFileFence> for SyncPoint {
    fn from(fence: SyncFileFence) -> (r: Self) {
        SyncPoint { fence: Some(SyncFence::SyncFile(fence)) }
    }
}

impl vstd::std_specs::convert::FromSpecImpl<SyncFileFence> for SyncPoint {
    open spec fn obeys_from_spec() -> bool {
        true
    }

    open spec fn from_spec(fence: SyncFileFence) -> Self {
        SyncPoint { fence: Some(SyncFence::SyncFile(fence)) }
    }
}

impl From<TimelineFence> for SyncPoint {
    fn from(fence: TimelineFence) -> (r: Self) {
        SyncPoint { fence: Some(SyncFence::Timeline(fence)) }
    }
}

impl vstd::std_specs::convert::FromSpecImpl<TimelineFence> for SyncPoint {
    open spec fn obeys_from_spec() -> bool {
        true
    }

    open spec fn from_spec(fence: TimelineFence) -> Self {
        SyncPoint { fence: Some(SyncFence::Timeline(fence)) }
    }
}

/// The point at which the sync file `file` is reached; one that was reached where there is none.
pub fn sync_point_from_sync_file(file: Option<SyncFileFence>) -> (r: SyncPoint)
    ensures
        r.fence == (match file {
            Some(file) => Some(SyncFence::SyncFile(file)),
            None => None,
        }),
{
    match file {
        Some(file) => SyncPoint { fence: Some(SyncFence::SyncFile(file)) },
        None => SyncPoint { fence: None },
    }
}

/// A point is reached exactly if it has no fence, if its fence is the one that is always signaled, or
/// if the machine has said so of its sync file or timeline.
pub proof fn law_points_are_reached_when_somebody_said_so(point: SyncPoint, r: bool)
    requires
        call_ensures(SyncPoint::is_reached, (&point,), r),
    ensures
        r <==> match point.fence {
            None => true,
            Some(SyncFence::Interrupted(_)) => false,
            Some(SyncFence::SignaledExportable(_)) => true,
            Some(SyncFence::CpuWait(_)) => false,
            Some(SyncFence::SyncFile(file)) => file.ready,
            Some(SyncFence::Timeline(timeline)) => timeline.reached,
        },
{
}

/// A point can be exported exactly if it has a fence that can: a sync file always, and a point on a
/// timeline as long as the timeline exists.
pub proof fn law_exportable_points_have_something_to_export(point: SyncPoint, r: bool, has: bool)
    requires
        call_ensures(SyncPoint::is_exportable, (&point,), r),
        call_ensures(SyncPoint::contains_fence, (&point,), has),
    ensures
        r ==> has,
        has <==> point.fence is Some,
        r <==> match point.fence {
            None => false,
            Some(SyncFence::Interrupted(_)) => false,
            Some(SyncFence::SignaledExportable(_)) => true,
            Some(SyncFence::CpuWait(fence)) => fence.exportable,
            Some(SyncFence::SyncFile(_)) => true,
            Some(SyncFence::Timeline(timeline)) => timeline.point.live,
        },
{
}

/// Once the machine was asked about a sync file or a timeline, the point is reached exactly if it
/// said so, and still is the same point; nobody can be asked about other fences.
pub proof fn law_polled_points_are_what_the_machine_said(
    point: SyncPoint,
    reached: bool,
    polled: SyncPoint,
    is_reached: bool,
    was_reached: bool,
)
    requires
        call_ensures(SyncPoint::polled, (point, reached), polled),
        call_ensures(SyncPoint::is_reached, (&polled,), is_reached),
        call_ensures(SyncPoint::is_reached, (&point,), was_reached),
    ensures
        match point.fence {
            Some(SyncFence::SyncFile(file)) => {
                &&& is_reached == reached
                &&& polled.fence matches Some(SyncFence::SyncFile(same)) && same.fd == file.fd
            },
            Some(SyncFence::Timeline(timeline)) => {
                &&& is_reached == reached
                &&& polled.fence matches Some(SyncFence::Timeline(same)) && same.point
                    == timeline.point
            },
            _ => polled == point && is_reached == was_reached,
        },
{
}

/// An interrupted wait is an error, and any other is none; the fences of tests wait as they say.
pub proof fn law_interrupted_waits_are_errors(
    outcome: Result<(), Interrupted>,
    r: Result<(), VulkanError>,
    signaled: SyncPoint,
    has_fence: bool,
)
    requires
        call_ensures(finish_host_wait, (outcome,), r),
        call_ensures(SyncPoint::signaled, (), signaled),
        call_ensures(SyncPoint::contains_fence, (&signaled,), has_fence),
    ensures
        outcome is Ok <==> r is Ok,
        r is Err ==> r == Err::<(), VulkanError>(VulkanError::SyncInterrupted),
        !has_fence,
{
}

/// A wait for a point asks for its own fence and gives what came of that; a point that is reached is
/// not waited for.
pub proof fn law_waits_are_for_the_fence_of_the_point<
    W: FnOnce(SyncFence) -> Result<(), Interrupted>,
>(point: SyncPoint, wait: W, r: Result<(), Interrupted>, is_reached: bool)
    requires
        call_ensures(SyncPoint::wait::<W>, (&point, wait), r),
        call_ensures(SyncPoint::is_reached, (&point,), is_reached),
    ensures
        is_reached ==> r is Ok,
        !is_reached ==> point.fence is Some && call_ensures(wait, (point.fence->0,), r),
{
}

/// A sync file becomes a point that is reached once the file is ready; without a file there is
/// nothing to wait for.
pub proof fn law_points_of_sync_files_wait_for_them(
    file: Option<SyncFileFence>,
    point: SyncPoint,
    is_reached: bool,
)
    requires
        call_ensures(sync_point_from_sync_file, (file,), point),
        call_ensures(SyncPoint::is_reached, (&point,), is_reached),
    ensures
        file is None ==> point.fence is None && is_reached,
        file matches Some(fence) ==> point.fence == Some(SyncFence::SyncFile(fence)) && (is_reached
            <==> file->0.ready),
{
}

/// A point made from a fence waits for that very fence. Ready-made fences answer waits as they are
/// made to.
pub proof fn law_points_wait_for_the_fence_they_are_made_from(
    interrupted: InterruptedFence,
    signaled: SignaledExportableFence,
    cpu: CpuWaitFence,
    file: SyncFileFence,
    timeline: TimelineFence,
    from_interrupted: SyncPoint,
    from_signaled: SyncPoint,
    from_cpu: SyncPoint,
    from_file: SyncPoint,
    from_timeline: SyncPoint,
    interrupted_wait: Result<(), Interrupted>,
    signaled_wait: Result<(), Interrupted>,
    cpu_wait: Result<(), Interrupted>,
)
    requires
        call_ensures(<SyncPoint as From<InterruptedFence>>::from, (interrupted,), from_interrupted),
        call_ensures(<SyncPoint as From<SignaledExportableFence>>::from, (signaled,), from_signaled),
        call_ensures(<SyncPoint as From<CpuWaitFence>>::from, (cpu,), from_cpu),
        call_ensures(<SyncPoint as From<SyncFileFence>>::from, (file,), from_file),
        call_ensures(<SyncPoint as From<TimelineFence>>::from, (timeline,), from_timeline),
        call_ensures(InterruptedFence::wait, (&interrupted,), interrupted_wait),
        call_ensures(SignaledExportableFence::wait, (&signaled,), signaled_wait),
        call_ensures(CpuWaitFence::wait, (&cpu,), cpu_wait),
    ensures
        from_interrupted.fence == Some(SyncFence::Interrupted(interrupted)),
        from_signaled.fence == Some(SyncFence::SignaledExportable(signaled)),
        from_cpu.fence == Some(SyncFence::CpuWait(cpu)),
        from_file.fence == Some(SyncFence::SyncFile(file)),
        from_timeline.fence == Some(SyncFence::Timeline(timeline)),
        interrupted_wait is Err && signaled_wait is Ok && cpu_wait is Ok,
{
}

} // verus!
