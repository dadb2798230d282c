//! Commits that wait for their acquire point.
//!
//! A commit whose buffer is not ready yet is set aside, and so is every later one of the same
//! surface, so that commits are applied in their order. Whether a point is reached only the kernel
//! knows, so the caller says so.

use vstd::prelude::*;

use crate::surface::{
    BufferAssignment, SurfaceSyncPoints, SyncobjProtocolError, WaylandSurface,
};
use crate::syncobj::DrmSyncPoint;

verus! {

/// A commit that was set aside.
#[derive(Debug)]
pub struct SurfaceTransaction {
    pub assignment: BufferAssignment,
    pub points: SurfaceSyncPoints,
}

/// A surface with the commits that were set aside, oldest first.
#[derive(Debug)]
pub struct SynchronizedSurface {
    pub surface: WaylandSurface,
    pub waiting: Vec<SurfaceTransaction>,
}

/// What came of a commit.
#[derive(Debug, Clone, Copy, PartialEq, Eq, Structural)]
pub enum SynchronizedCommit {
    /// What was staged is current. The release point that was current before is superseded.
    Applied(Option<DrmSyncPoint>),
    /// What was staged was set aside.
    Waits,
}

impl SurfaceTransaction {
    /// The release points of `transactions`, oldest first.
    pub open spec fn release_points(transactions: Seq<Self>) -> Seq<DrmSyncPoint>
        decreases transactions.len(),
    {
        if transactions.len() == 0 {
            Seq::empty()
        } else {
            let before = Self::release_points(transactions.drop_last());
            match transactions.last().points.release_point {
                Some(point) => before.push(point),
                None => before,
            }
        }
    }
}

impl SynchronizedSurface {
    /// The surface holds on to `point` in order to release a buffer at it.
    pub open spec fn holds(self, point: DrmSyncPoint) -> bool {
        ||| self.surface.holds(point)
        ||| exists|i: int|
            0 <= i < self.waiting@.len() && (#[trigger] self.waiting@[i]).points.release_point
                == Some(point)
    }

    /// What is staged has to be set aside: an earlier commit still waits, or the acquire point was
    /// not reached.
    pub open spec fn has_to_wait(self, acquired: bool) -> bool {
        self.waiting@.len() > 0 || (self.surface.pending_points.acquire_point is Some && !acquired)
    }

    /// What a commit makes of `before`: `after`, and the answer `r`. A commit that breaks the
    /// protocol, or that has no buffer, never waits.
    pub open spec fn committed(
        before: Self,
        acquired: bool,
        after: Self,
        r: Result<SynchronizedCommit, SyncobjProtocolError>,
    ) -> bool {
        let breaks_protocol = before.surface.pending_points.any() && !(
        before.surface.pending_buffer matches Some(BufferAssignment::NewBuffer(_)));
        if before.surface.pending_buffer is Some && !breaks_protocol && before.has_to_wait(
            acquired,
        ) {
            &&& r == Ok::<SynchronizedCommit, SyncobjProtocolError>(SynchronizedCommit::Waits)
            &&& after.waiting@ == before.waiting@.push(
                SurfaceTransaction {
                    assignment: before.surface.pending_buffer->0,
                    points: before.surface.pending_points,
                },
            )
            &&& after.surface == WaylandSurface {
                pending_buffer: None,
                pending_points: SurfaceSyncPoints::none(),
                ..before.surface
            }
        } else {
            &&& after.waiting@ == before.waiting@
            &&& match r {
                Ok(SynchronizedCommit::Applied(superseded)) => WaylandSurface::committed(
                    before.surface,
                    after.surface,
                    Ok(superseded),
                ),
                Ok(SynchronizedCommit::Waits) => false,
                Err(error) => WaylandSurface::committed(
                    before.surface,
                    after.surface,
                    Err(error),
                ),
            }
        }
    }

    /// What making the oldest commit that waits current gives: `after`, and the release point `r`
    /// that it supersedes.
    pub open spec fn applied(before: Self, after: Self, r: Option<DrmSyncPoint>) -> bool {
        &&& before.waiting@.len() > 0
        &&& r == before.surface.current_points.release_point
        &&& after.waiting@ == before.waiting@.skip(1)
        &&& after.surface == WaylandSurface {
            current_buffer: Some(before.waiting@[0].assignment),
            current_points: before.waiting@[0].points,
            ..before.surface
        }
    }

    /// A surface on which no commit waits.
    pub fn new(surface: WaylandSurface) -> (r: Self)
        ensures
            r.surface == surface,
            r.waiting@.len() == 0,
    {
        SynchronizedSurface { surface, waiting: Vec::new() }
    }

    /// Commits what is staged. `acquired` says whether the staged acquire point is reached.
    pub fn commit(&mut self, acquired: bool) -> (r: Result<
        SynchronizedCommit,
        SyncobjProtocolError,
    >)
        ensures
            SynchronizedSurface::committed(*old(self), acquired, *final(self), r),
    {
        let points = self.surface.pending_points;
        let has_points = points.acquire_point.is_some() || points.release_point.is_some();
        let waits = self.waiting.len() > 0 || (points.acquire_point.is_some() && !acquired);
        let may_wait = match &self.surface.pending_buffer {
            Some(BufferAssignment::NewBuffer(_)) => true,
            Some(BufferAssignment::Removed) => !has_points,
            None => false,
        };
        if waits && may_wait {
            match self.surface.pending_buffer.take() {
                Some(assignment) => {
                    self.surface.pending_points = SurfaceSyncPoints::default();
                    self.waiting.push(SurfaceTransaction { assignment, points });
                },
                None => {},
            }
            return Ok(SynchronizedCommit::Waits);
        }
        match self.surface.commit() {
            Ok(superseded) => Ok(SynchronizedCommit::Applied(superseded)),
            Err(error) => Err(error),
        }
    }

    /// The acquire point of the oldest commit that waits, where one does. A commit without one is
    /// ready as soon as it is the oldest.
    pub fn awaited(&self) -> (r: Option<Option<DrmSyncPoint>>)
        ensures
            r == (if self.waiting@.len() > 0 {
                Some(self.waiting@[0].points.acquire_point)
            } else {
                None
            }),
    {
        if self.waiting.len() > 0 {
            Some(self.waiting[0].points.acquire_point)
        } else {
            None
        }
    }

    /// Makes the oldest commit that waits current, now that its buffer is ready. The answer names
    /// the release point that it supersedes.
    pub fn apply_oldest(&mut self) -> (r: Option<DrmSyncPoint>)
        requires
            old(self).waiting@.len() > 0,
        ensures
            SynchronizedSurface::applied(*old(self), *final(self), r),
    {
        let superseded = self.surface.current_points.release_point;
        let SurfaceTransaction { assignment, points } = self.waiting.remove(0);
        self.surface.current_buffer = Some(assignment);
        self.surface.current_points = points;
        assert(self.waiting@ =~= old(self).waiting@.skip(1));
        superseded
    }

    /// Drops all commits that wait. Their release points have to be signaled.
    pub fn discard_waiting(&mut self) -> (r: Vec<DrmSyncPoint>)
        ensures
            r@ == SurfaceTransaction::release_points(old(self).waiting@),
            final(self).waiting@.len() == 0,
            final(self).surface == old(self).surface,
    {
        let ghost before = self.waiting@;
        let mut points: Vec<DrmSyncPoint> = Vec::new();
        let mut i: usize = 0;
        assert(before.take(0) =~= Seq::empty());
        while i < self.waiting.len()
            invariant
                i <= self.waiting@.len(),
                self.waiting@ == before,
                self.surface == old(self).surface,
                points@ == SurfaceTransaction::release_points(before.take(i as int)),
            decreases self.waiting.len() - i,
        {
            proof {
                let next = before.take(i + 1);
                assert(next.drop_last() =~= before.take(i as int));
                assert(next.last() == before[i as int]);
            }
            match self.waiting[i].points.release_point {
                Some(point) => {
                    points.push(point);
                },
                None => {},
            }
            i = i + 1;
        }
        assert(before.take(before.len() as int) =~= before);
        self.waiting = Vec::new();
        points
    }
}

/// What is set aside is neither current nor known to the renderer: nothing but what was staged
/// changes until the acquire point is reached.
pub proof fn law_waiting_commits_are_not_current(
    before: SynchronizedSurface,
    acquired: bool,
    after: SynchronizedSurface,
)
    requires
        SynchronizedSurface::committed(before, acquired, after, Ok(SynchronizedCommit::Waits)),
    ensures
        after.surface.current_buffer == before.surface.current_buffer,
        after.surface.current_points == before.surface.current_points,
        after.surface.renderer_state == before.surface.renderer_state,
{
}

/// A buffer becomes current at once only if it is ready and nothing older waits.
pub proof fn law_buffers_are_current_once_they_are_ready(
    before: SynchronizedSurface,
    acquired: bool,
    after: SynchronizedSurface,
    superseded: Option<DrmSyncPoint>,
)
    requires
        before.surface.pending_buffer is Some,
        SynchronizedSurface::committed(
            before,
            acquired,
            after,
            Ok(SynchronizedCommit::Applied(superseded)),
        ),
    ensures
        before.waiting@.len() == 0,
        before.surface.pending_points.acquire_point is Some ==> acquired,
        after.surface.current_buffer == before.surface.pending_buffer,
        after.surface.current_points == before.surface.pending_points,
{
}

/// Making a commit current that was set aside loses no release point either.
pub proof fn law_applied_commits_keep_release_points(
    before: SynchronizedSurface,
    after: SynchronizedSurface,
    superseded: Option<DrmSyncPoint>,
    point: DrmSyncPoint,
)
    requires
        before.holds(point),
        SynchronizedSurface::applied(before, after, superseded),
    ensures
        after.holds(point) || superseded == Some(point),
{
    if !before.surface.holds(point) {
        let i = choose|i: int|
            0 <= i < before.waiting@.len() && (#[trigger] before.waiting@[i]).points.release_point
                == Some(point);
        if i > 0 {
            assert(after.waiting@[i - 1] == before.waiting@[i]);
        }
    }
}

/// Setting a commit aside loses no release point: whatever the surface held before it still holds,
/// or the commit has handed it back to be signaled.
pub proof fn law_waiting_commits_keep_release_points(
    before: SynchronizedSurface,
    acquired: bool,
    after: SynchronizedSurface,
    r: Result<SynchronizedCommit, SyncobjProtocolError>,
    point: DrmSyncPoint,
)
    requires
        before.holds(point),
        SynchronizedSurface::committed(before, acquired, after, r),
    ensures
        ({
            ||| after.holds(point)
            ||| r == Ok::<SynchronizedCommit, SyncobjProtocolError>(
                SynchronizedCommit::Applied(Some(point)),
            )
            ||| r matches Err(error) && error.discarded_release_point == Some(point)
        }),
{
    if before.surface.holds(point) {
        if after.waiting@.len() > before.waiting@.len() {
            let added = after.waiting@[before.waiting@.len() as int];
            assert(added.points == before.surface.pending_points);
        }
    } else {
        let i = choose|i: int|
            0 <= i < before.waiting@.len() && (#[trigger] before.waiting@[i]).points.release_point
                == Some(point);
        assert(after.waiting@[i] == before.waiting@[i]);
    }
}

/// A commit waits exactly if something is attached that keeps to the protocol, and if an older commit
/// waits or its own acquire point was not reached. It then comes last among those that wait, with the
/// points it was staged with, and nothing becomes current. Every other commit is done at once, as a
/// commit of the surface alone is.
pub proof fn law_unready_commits_queue_up(
    synchronized: &mut SynchronizedSurface,
    acquired: bool,
    r: Result<SynchronizedCommit, SyncobjProtocolError>,
    alone: &mut WaylandSurface,
    alone_r: Result<Option<DrmSyncPoint>, SyncobjProtocolError>,
)
    requires
        *old(alone) == old(synchronized).surface,
        call_ensures(SynchronizedSurface::commit, (synchronized, acquired), r),
        call_ensures(WaylandSurface::commit, (alone,), alone_r),
    ensures
        ({
            let staged = old(synchronized).surface.pending_points;
            let attached = old(synchronized).surface.pending_buffer;
            let waiting = old(synchronized).waiting@;
            let keeps = attached is Some && (attached->0 is NewBuffer || (staged.acquire_point
                is None && staged.release_point is None));
            let unready = waiting.len() > 0 || (staged.acquire_point is Some && !acquired);
            let waits = keeps && unready;
            &&& (r matches Ok(SynchronizedCommit::Waits)) <==> waits
            &&& waits ==> {
                let now = final(synchronized).waiting@;
                &&& now.len() == waiting.len() + 1
                &&& now.drop_last() == waiting
                &&& now.last().assignment == attached->0
                &&& now.last().points == staged
                &&& final(synchronized).surface.pending_buffer is None
                &&& final(synchronized).surface.pending_points.acquire_point is None
                &&& final(synchronized).surface.pending_points.release_point is None
                &&& final(synchronized).surface.current_buffer == old(
                    synchronized,
                ).surface.current_buffer
                &&& final(synchronized).surface.current_points == old(
                    synchronized,
                ).surface.current_points
                &&& final(synchronized).surface.renderer_state == old(
                    synchronized,
                ).surface.renderer_state
            }
            &&& !waits ==> {
                &&& final(synchronized).waiting@ == waiting
                &&& final(synchronized).surface == *final(alone)
                &&& r is Err <==> alone_r is Err
                &&& r matches Ok(SynchronizedCommit::Applied(superseded)) ==> alone_r == Ok::<
                    Option<DrmSyncPoint>,
                    SyncobjProtocolError,
                >(superseded)
            }
        }),
{
    let waiting = old(synchronized).waiting@;
    let now = final(synchronized).waiting@;
    if now.len() == waiting.len() + 1 {
        assert(now.drop_last() =~= waiting);
    }
}

/// Commits that wait are applied oldest first, each with its own points: the one that is awaited is
/// the one that becomes current next, and the rest keeps its order.
pub proof fn law_waiting_commits_are_applied_in_order(
    surface: WaylandSurface,
    first: SynchronizedSurface,
    synchronized: &mut SynchronizedSurface,
    awaited: Option<Option<DrmSyncPoint>>,
    superseded: Option<DrmSyncPoint>,
    i: int,
)
    requires
        call_ensures(SynchronizedSurface::new, (surface,), first),
        call_ensures(SynchronizedSurface::awaited, (old(synchronized),), awaited),
        old(synchronized).waiting@.len() > 0,
        call_ensures(SynchronizedSurface::apply_oldest, (synchronized,), superseded),
        1 <= i < old(synchronized).waiting@.len(),
    ensures
        first.surface == surface && first.waiting@.len() == 0,
        awaited == Some(final(synchronized).surface.current_points.acquire_point),
        superseded == old(synchronized).surface.current_points.release_point,
        final(synchronized).surface.current_buffer == Some(
            old(synchronized).waiting@[0].assignment,
        ),
        final(synchronized).surface.current_points == old(synchronized).waiting@[0].points,
        final(synchronized).waiting@.len() == old(synchronized).waiting@.len() - 1,
        final(synchronized).waiting@[i - 1] == old(synchronized).waiting@[i],
        final(synchronized).surface.pending_buffer == old(synchronized).surface.pending_buffer,
        final(synchronized).surface.pending_points == old(synchronized).surface.pending_points,
        final(synchronized).surface.renderer_state == old(synchronized).surface.renderer_state,
{
}

proof fn lemma_release_points(transactions: Seq<SurfaceTransaction>)
    ensures
        SurfaceTransaction::release_points(transactions) == transactions.filter(
            |transaction: SurfaceTransaction| transaction.points.release_point is Some,
        ).map_values(|transaction: SurfaceTransaction| transaction.points.release_point->0),
    decreases transactions.len(),
{
    reveal(Seq::filter);
    let has = |transaction: SurfaceTransaction| transaction.points.release_point is Some;
    let point = |transaction: SurfaceTransaction| transaction.points.release_point->0;
    if transactions.len() > 0 {
        let before = transactions.drop_last();
        lemma_release_points(before);
        if has(transactions.last()) {
            assert(transactions.filter(has).map_values(point) =~= before.filter(has).map_values(
                point,
            ).push(point(transactions.last())));
        }
    } else {
        assert(transactions.filter(has).map_values(point) =~= Seq::<DrmSyncPoint>::empty());
    }
}

/// Dropping the commits that wait hands back the release point of each that has one, in their order,
/// and leaves the surface alone.
pub proof fn law_dropped_commits_hand_their_points_back(
    synchronized: &mut SynchronizedSurface,
    r: Vec<DrmSyncPoint>,
)
    requires
        call_ensures(SynchronizedSurface::discard_waiting, (synchronized,), r),
    ensures
        r@ == old(synchronized).waiting@.filter(
            |transaction: SurfaceTransaction| transaction.points.release_point is Some,
        ).map_values(|transaction: SurfaceTransaction| transaction.points.release_point->0),
        final(synchronized).waiting@.len() == 0,
        final(synchronized).surface == old(synchronized).surface,
{
    lemma_release_points(old(synchronized).waiting@);
}

} // verus!
