//! The shared registry: a fixed number of slots of secret-shared identifiers,
//! filled in order and never overwritten.

use vstd::prelude::*;
use crate::error::PsiError;

verus! {

/// Number of slots in the registry.
pub const REGISTRY_CAPACITY: u8 = 4;

/// The on-chain registry state: who created it, how many slots are occupied, and
/// the slots themselves (unoccupied slots hold zeros).
pub struct GlobalState {
    pub authority: [u8; 32],
    pub user_count: u8,
    pub encrypted_users: [[u8; 32]; 4],
}

/// Every byte of the slot is zero.
pub open spec fn is_zero_slot(slot: [u8; 32]) -> bool {
    forall|k: int| 0 <= k < 32 ==> #[trigger] slot@[k] == 0
}

impl GlobalState {
    /// The occupied count never exceeds the number of slots.
    pub open spec fn wf(&self) -> bool {
        self.user_count <= REGISTRY_CAPACITY
    }

    /// The identifiers registered so far, in order of registration.
    pub open spec fn occupied(&self) -> Seq<[u8; 32]>
        recommends
            self.wf(),
    {
        self.encrypted_users@.subrange(0, self.user_count as int)
    }

    /// Whether another identifier can be registered.
    pub open spec fn has_room(&self) -> bool {
        self.user_count < REGISTRY_CAPACITY
    }

    /// A copy of the identifiers registered so far, in order of registration.
    pub fn snapshot(&self) -> (r: Vec<[u8; 32]>)
        requires
            self.wf(),
        ensures
            r@ == self.occupied(),
    {
        let mut r: Vec<[u8; 32]> = Vec::new();
        let mut i: usize = 0;
        while i < self.user_count as usize
            invariant
                self.wf(),
                0 <= i <= self.user_count,
                r@ == self.encrypted_users@.subrange(0, i as int),
            decreases self.user_count - i,
        {
            r.push(self.encrypted_users[i]);
            assert(self.encrypted_users@.subrange(0, i + 1) == self.encrypted_users@.subrange(
                0,
                i as int,
            ).push(self.encrypted_users@[i as int]));
            i = i + 1;
        }
        r
    }
}

/// A fresh registry owned by `authority`: no slot occupied, every slot zero.
pub fn init_registry(authority: [u8; 32]) -> (registry: GlobalState)
    ensures
        registry.wf(),
        registry.authority == authority,
        registry.user_count == 0,
        registry.occupied() == Seq::<[u8; 32]>::empty(),
        forall|i: int| 0 <= i < 4 ==> is_zero_slot(#[trigger] registry.encrypted_users@[i]),
{
    let registry = GlobalState {
        authority,
        user_count: 0,
        encrypted_users: [[0u8; 32]; 4],
    };
    assert(registry.occupied() =~= Seq::<[u8; 32]>::empty());
    registry
}

/// Appends `encrypted_hash` in the first free slot and returns that slot's index.
/// A full registry refuses the identifier and is left as it was. The occupied
/// count never decreases.
pub fn register_user(registry: &mut GlobalState, encrypted_hash: [u8; 32]) -> (r: Result<
    usize,
    PsiError,
>)
    ensures
        final(registry).user_count >= old(registry).user_count,
        old(registry).wf() ==> final(registry).wf(),
        old(registry).has_room() ==> {
            &&& r == Ok::<usize, PsiError>(old(registry).user_count as usize)
            &&& final(registry).user_count == old(registry).user_count + 1
            &&& final(registry).authority == old(registry).authority
            &&& final(registry).encrypted_users@ == old(registry).encrypted_users@.update(
                old(registry).user_count as int,
                encrypted_hash,
            )
            &&& final(registry).occupied() == old(registry).occupied().push(encrypted_hash)
        },
        !old(registry).has_room() ==> {
            &&& r == Err::<usize, PsiError>(PsiError::RegistryFull)
            &&& *final(registry) == *old(registry)
        },
{
    if registry.user_count >= REGISTRY_CAPACITY {
        return Err(PsiError::RegistryFull);
    }
    let idx = registry.user_count as usize;
    registry.encrypted_users[idx] = encrypted_hash;
    registry.user_count = registry.user_count + 1;
    assert(registry.occupied() =~= old(registry).occupied().push(encrypted_hash));
    Ok(idx)
}

} // verus!
