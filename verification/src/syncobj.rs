//! Points on the timelines that clients synchronize with.

use vstd::prelude::*;

verus! {

/// A point on a client's timeline. The kernel refuses every operation on a timeline that is not
/// `live` any more.
#[derive(Debug, Clone, Copy, PartialEq, Eq, Structural)]
pub struct DrmSyncPoint {
    pub timeline: u64,
    pub point: u64,
    pub live: bool,
}

impl DrmSyncPoint {
    /// Both points lie on one timeline.
    pub fn same_timeline_for_tests(&self, other: &DrmSyncPoint) -> (r: bool)
        ensures
            r == (self.timeline == other.timeline),
    {
        self.timeline == other.timeline
    }

    pub fn point_for_tests(&self) -> (r: u64)
        ensures
            r == self.point,
    {
        self.point
    }
}

/// Points lie on one timeline exactly if they name the same one, whatever their numbers are.
pub proof fn law_points_are_told_by_timeline_and_number(
    a: DrmSyncPoint,
    b: DrmSyncPoint,
    same: bool,
    number: u64,
)
    requires
        call_ensures(DrmSyncPoint::same_timeline_for_tests, (&a, &b), same),
        call_ensures(DrmSyncPoint::point_for_tests, (&a,), number),
    ensures
        same <==> a.timeline == b.timeline,
        number == a.point,
        same && number == b.point && a.live == b.live ==> a == b,
{
}

} // verus!
