//! The lifecycle of a matching computation: submitted requests wait in `Queued`
//! until their callback arrives; a callback whose signed output verifies against
//! the expected cluster and computation account releases the match mask
//! (`Verified`), any other aborts the computation (`Aborted`). Both are final:
//! a later callback for the same computation is refused and changes nothing.

use std::collections::HashMap;
use vstd::prelude::*;
use crate::circuit::IntersectionResult;
use crate::error::{ErrorCode, PsiError};

verus! {

broadcast use vstd::std_specs::hash::group_hash_axioms;

/// Where a submitted computation stands.
#[derive(Clone, Copy, Debug)]
pub enum ComputationState {
    /// Accepted by the provider; its callback has not arrived.
    Queued,
    /// Its output verified; holds the verified result slots.
    Verified([[u8; 32]; 4]),
    /// Its output failed verification; exposes nothing.
    Aborted,
}

/// What is known of a submitted computation: the cluster expected to sign its
/// output, the computation account it runs under, and its state.
#[derive(Clone, Copy, Debug)]
pub struct ComputationRecord {
    pub cluster: [u8; 32],
    pub computation_account: [u8; 32],
    pub state: ComputationState,
}

/// A callback's signed output: who signed it, for which computation account,
/// whether the signature checked out under that signer's key, and the result
/// slots (one per query entry).
#[derive(Clone, Copy, Debug)]
pub struct SignedOutput {
    pub cluster: [u8; 32],
    pub computation_account: [u8; 32],
    pub signature_valid: bool,
    pub ciphertexts: [[u8; 32]; 4],
}

/// The notification published when a computation completes: which computation
/// account, and when. It carries nothing of the result.
#[derive(Clone, Copy, Debug)]
pub struct PsiCompleteEvent {
    pub user: [u8; 32],
    pub timestamp: i64,
}

/// A result slot is set when its leading 64-bit little-endian word is non-zero,
/// that is when one of its first eight bytes is non-zero.
pub open spec fn slot_is_set(slot: [u8; 32]) -> bool {
    exists|k: int| 0 <= k < 8 && #[trigger] slot@[k] != 0
}

/// The flag of one result slot: 1 when set, 0 when not.
pub open spec fn slot_flag(slot: [u8; 32]) -> u64 {
    if slot_is_set(slot) {
        1
    } else {
        0
    }
}

/// The match mask carried by the result slots, one flag per slot, in order.
pub open spec fn decode_mask(slots: Seq<[u8; 32]>) -> Seq<u64> {
    slots.map_values(|s: [u8; 32]| slot_flag(s))
}

/// The output was signed by the expected cluster, for the expected computation
/// account, with a valid signature.
pub open spec fn output_verifies(record: ComputationRecord, output: SignedOutput) -> bool {
    &&& output.signature_valid
    &&& output.cluster@ == record.cluster@
    &&& output.computation_account@ == record.computation_account@
}

/// The record with its state replaced.
pub open spec fn with_state(record: ComputationRecord, state: ComputationState) -> ComputationRecord {
    ComputationRecord {
        cluster: record.cluster,
        computation_account: record.computation_account,
        state,
    }
}

/// What a callback for `id` with `output` returns, given the records before it:
/// the decoded mask, or the error.
pub open spec fn callback_result(
    records: Map<u64, ComputationRecord>,
    id: u64,
    output: SignedOutput,
) -> Result<Seq<u64>, ErrorCode> {
    if !records.contains_key(id) {
        Err(ErrorCode::UnknownComputation)
    } else if !(records[id].state is Queued) {
        Err(ErrorCode::ComputationResolved)
    } else if output_verifies(records[id], output) {
        Ok(decode_mask(output.ciphertexts@))
    } else {
        Err(ErrorCode::AbortedComputation)
    }
}

/// The records after a callback for `id` with `output`.
pub open spec fn callback_records(
    records: Map<u64, ComputationRecord>,
    id: u64,
    output: SignedOutput,
) -> Map<u64, ComputationRecord> {
    if !records.contains_key(id) || !(records[id].state is Queued) {
        records
    } else if output_verifies(records[id], output) {
        records.insert(id, with_state(records[id], ComputationState::Verified(output.ciphertexts)))
    } else {
        records.insert(id, with_state(records[id], ComputationState::Aborted))
    }
}

/// Whether two keys hold the same bytes.
fn same_key(a: &[u8; 32], b: &[u8; 32]) -> (r: bool)
    ensures
        r == (a@ == b@),
{
    let mut i: usize = 0;
    while i < 32
        invariant
            0 <= i <= 32,
            a@.len() == 32,
            b@.len() == 32,
            forall|k: int| 0 <= k < i ==> a@[k] == b@[k],
        decreases 32 - i,
    {
        if a[i] != b[i] {
            return false;
        }
        i = i + 1;
    }
    assert(a@ =~= b@);
    true
}

/// The flag of one result slot.
fn decode_slot(slot: &[u8; 32]) -> (flag: u64)
    ensures
        flag == slot_flag(*slot),
{
    let mut set = false;
    let mut k: usize = 0;
    while k < 8
        invariant
            0 <= k <= 8,
            slot@.len() == 32,
            set == exists|m: int| 0 <= m < k && #[trigger] slot@[m] != 0,
        decreases 8 - k,
    {
        if slot[k] != 0 {
            set = true;
        }
        k = k + 1;
    }
    if set {
        1
    } else {
        0
    }
}

/// Decodes every result slot into a match flag.
pub fn decode_output(ciphertexts: &[[u8; 32]; 4]) -> (result: IntersectionResult)
    ensures
        result.matches@ == decode_mask(ciphertexts@),
{
    let mut matches: [u64; 4] = [0u64; 4];
    let mut i: usize = 0;
    while i < 4
        invariant
            0 <= i <= 4,
            matches@.len() == 4,
            ciphertexts@.len() == 4,
            forall|k: int| 0 <= k < i ==> matches@[k] == slot_flag(#[trigger] ciphertexts@[k]),
        decreases 4 - i,
    {
        matches[i] = decode_slot(&ciphertexts[i]);
        i = i + 1;
    }
    let result = IntersectionResult { matches };
    assert(result.matches@ =~= decode_mask(ciphertexts@));
    result
}

/// The computations submitted so far, by computation identifier.
pub struct ComputationTracker {
    records: HashMap<u64, ComputationRecord>,
}

impl View for ComputationTracker {
    type V = Map<u64, ComputationRecord>;

    closed spec fn view(&self) -> Map<u64, ComputationRecord> {
        self.records@
    }
}

impl ComputationTracker {
    /// A tracker with no computation submitted.
    pub fn new() -> (t: ComputationTracker)
        ensures
            t@ == Map::<u64, ComputationRecord>::empty(),
    {
        ComputationTracker { records: HashMap::new() }
    }

    /// The record of computation `id`, if it was submitted.
    pub fn record(&self, id: u64) -> (r: Option<ComputationRecord>)
        ensures
            r == (if self@.contains_key(id) {
                Some(self@[id])
            } else {
                None::<ComputationRecord>
            }),
    {
        match self.records.get(&id) {
            Some(rec) => Some(*rec),
            None => None,
        }
    }

    /// Records computation `id` as queued once the provider has answered the
    /// submission. An identifier used before is refused, and so is a request that
    /// the provider did not accept; neither changes anything.
    pub fn submit(
        &mut self,
        id: u64,
        cluster: [u8; 32],
        computation_account: [u8; 32],
        accepted: bool,
    ) -> (r: Result<(), PsiError>)
        ensures
            old(self)@.contains_key(id) ==> r == Err::<(), PsiError>(
                PsiError::DuplicateComputation,
            ) && final(self)@ == old(self)@,
            !old(self)@.contains_key(id) && !accepted ==> r == Err::<(), PsiError>(
                PsiError::ProviderUnavailable,
            ) && final(self)@ == old(self)@,
            !old(self)@.contains_key(id) && accepted ==> r == Ok::<(), PsiError>(())
                && final(self)@ == old(self)@.insert(
                id,
                (ComputationRecord {
                    cluster,
                    computation_account,
                    state: ComputationState::Queued,
                }),
            ),
    {
        if self.records.contains_key(&id) {
            return Err(PsiError::DuplicateComputation);
        }
        if !accepted {
            return Err(PsiError::ProviderUnavailable);
        }
        let rec = ComputationRecord { cluster, computation_account, state: ComputationState::Queued };
        self.records.insert(id, rec);
        Ok(())
    }

    /// Handles the callback of computation `id`. A queued computation whose
    /// output verifies becomes `Verified` and its match mask is returned; one
    /// whose output does not becomes `Aborted`. A callback for an unknown or
    /// already resolved computation is refused and changes nothing.
    pub fn on_callback(&mut self, id: u64, output: &SignedOutput) -> (r: Result<
        IntersectionResult,
        ErrorCode,
    >)
        ensures
            final(self)@ == callback_records(old(self)@, id, *output),
            match r {
                Ok(res) => callback_result(old(self)@, id, *output) == Ok::<Seq<u64>, ErrorCode>(
                    res.matches@,
                ),
                Err(e) => callback_result(old(self)@, id, *output) == Err::<Seq<u64>, ErrorCode>(
                    e,
                ),
            },
    {
        let rec = match self.records.get(&id) {
            Some(rec) => *rec,
            None => {
                return Err(ErrorCode::UnknownComputation);
            },
        };
        match rec.state {
            ComputationState::Queued => {},
            _ => {
                return Err(ErrorCode::ComputationResolved);
            },
        }
        let verified = output.signature_valid && same_key(&output.cluster, &rec.cluster)
            && same_key(&output.computation_account, &rec.computation_account);
        if verified {
            let next = ComputationRecord {
                cluster: rec.cluster,
                computation_account: rec.computation_account,
                state: ComputationState::Verified(output.ciphertexts),
            };
            self.records.insert(id, next);
            Ok(decode_output(&output.ciphertexts))
        } else {
            let next = ComputationRecord {
                cluster: rec.cluster,
                computation_account: rec.computation_account,
                state: ComputationState::Aborted,
            };
            self.records.insert(id, next);
            Err(ErrorCode::AbortedComputation)
        }
    }
}

/// Handles the callback of computation `id` and, when its output verifies,
/// returns the completion notification: the computation account and the time,
/// never the result. The tracker moves exactly as `on_callback` moves it.
pub fn perform_psi_callback(
    tracker: &mut ComputationTracker,
    id: u64,
    output: &SignedOutput,
    timestamp: i64,
) -> (r: Result<PsiCompleteEvent, ErrorCode>)
    ensures
        final(tracker)@ == callback_records(old(tracker)@, id, *output),
        r is Ok <==> callback_result(old(tracker)@, id, *output) is Ok,
        match r {
            Ok(event) => event.user == old(tracker)@[id].computation_account && event.timestamp
                == timestamp,
            Err(e) => callback_result(old(tracker)@, id, *output) == Err::<Seq<u64>, ErrorCode>(e),
        },
{
    match tracker.on_callback(id, output) {
        Ok(_) => Ok(PsiCompleteEvent { user: output.computation_account, timestamp }),
        Err(e) => Err(e),
    }
}

/// Once a submitted computation has had a callback, whatever its outcome, every
/// later callback for it is refused as resolved and leaves the records as they
/// were.
pub proof fn lemma_resolved_refuses_callbacks(
    records: Map<u64, ComputationRecord>,
    id: u64,
    first: SignedOutput,
    second: SignedOutput,
)
    requires
        records.contains_key(id),
    ensures
        ({
            let after = callback_records(records, id, first);
            &&& callback_result(after, id, second) == Err::<Seq<u64>, ErrorCode>(
                ErrorCode::ComputationResolved,
            )
            &&& callback_records(after, id, second) == after
        }),
{
}

/// A callback whose output does not verify against the computation's expected
/// cluster and account never yields a mask, and aborts a queued computation.
pub proof fn lemma_mismatched_output_aborts(
    records: Map<u64, ComputationRecord>,
    id: u64,
    output: SignedOutput,
)
    requires
        records.contains_key(id),
        !output_verifies(records[id], output),
    ensures
        callback_result(records, id, output) is Err,
        records[id].state is Queued ==> {
            &&& callback_result(records, id, output) == Err::<Seq<u64>, ErrorCode>(
                ErrorCode::AbortedComputation,
            )
            &&& callback_records(records, id, output)[id].state is Aborted
        },
{
}

} // verus!
