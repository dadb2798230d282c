//! Identities of renderers, buffers and surface commits.
//!
//! Two handles mean the same object exactly when they carry the same identity, so every object is
//! given its own from one source.
//!
//! Identities are told apart only within one source: two sources hand out the same ones. A program
//! therefore makes one `IdentitySource` and passes it to everything that makes renderers, buffers or
//! commits; objects with identities from different sources must not meet.

use vstd::prelude::*;

verus! {

/// Hands out identities, each one once. There is to be one in a program.
#[derive(Debug)]
pub struct IdentitySource {
    next: u64,
}

impl IdentitySource {
    /// The identities that were handed out so far are those below this bound.
    pub closed spec fn issued(self) -> nat {
        self.next as nat
    }

    /// At least `count` identities are left.
    pub open spec fn has(self, count: nat) -> bool {
        self.issued() + count <= u64::MAX
    }

    /// An identity that this source has handed out.
    pub open spec fn knows(self, identity: u64) -> bool {
        identity < self.issued()
    }

    pub fn new() -> (r: Self)
        ensures
            r.issued() == 0,
    {
        IdentitySource { next: 0 }
    }

    /// An identity that was never handed out before.
    pub fn fresh(&mut self) -> (r: u64)
        requires
            old(self).has(1),
        ensures
            !old(self).knows(r),
            final(self).knows(r),
            final(self).issued() == old(self).issued() + 1,
            forall|identity: u64| #[trigger]
                final(self).knows(identity) ==> old(self).knows(identity) || identity == r,
    {
        let identity: u64 = self.next;
        self.next = self.next + 1;
        identity
    }
}

/// Names the renderer that an object belongs to.
#[derive(Debug, Clone, Copy, PartialEq, Eq, Structural)]
pub struct ContextId {
    pub identity: u64,
}

impl ContextId {
    /// A context that no other object belongs to yet.
    pub fn new(ids: &mut IdentitySource) -> (r: Self)
        requires
            old(ids).has(1),
        ensures
            !old(ids).knows(r.identity),
            final(ids).knows(r.identity),
            final(ids).issued() == old(ids).issued() + 1,
            forall|identity: u64| #[trigger]
                final(ids).knows(identity) ==> old(ids).knows(identity) || identity == r.identity,
    {
        ContextId { identity: ids.fresh() }
    }
}

/// No identity is handed out twice by one source.
pub proof fn law_identities_are_handed_out_once(
    earlier: &mut IdentitySource,
    later: &mut IdentitySource,
    first: u64,
    second: u64,
)
    requires
        old(later).issued() >= final(earlier).issued(),
        call_ensures(IdentitySource::fresh, (earlier,), first),
        call_ensures(IdentitySource::fresh, (later,), second),
    ensures
        first != second,
        final(later).issued() > final(earlier).issued(),
{
}

/// Contexts of one source are told apart.
pub proof fn law_contexts_are_told_apart(
    earlier: &mut IdentitySource,
    later: &mut IdentitySource,
    first: ContextId,
    second: ContextId,
)
    requires
        old(later).issued() >= final(earlier).issued(),
        call_ensures(ContextId::new, (earlier,), first),
        call_ensures(ContextId::new, (later,), second),
    ensures
        first.identity != second.identity,
        first != second,
{
}

} // verus!
