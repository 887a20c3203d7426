use arcium_anchor::prelude::ArgumentRef;
use arcpsi::{
    compute_match_mask, decode_output, discover_contacts, init_registry, perform_psi,
    perform_psi_callback, register_user, to_arg_builder, Argument, ComputationState, ComputationTracker,
    ErrorCode, GlobalRegistry, PsiError, SignedOutput, UserContacts,
};

const H1: u64 = 0x1111_0000_0000_0001;
const H2: u64 = 0x2222_0000_0000_0002;
const H3: u64 = 0x3333_0000_0000_0003;
const H4: u64 = 0x4444_0000_0000_0004;
const H7: u64 = 0x7777_0000_0000_0007;
const H9: u64 = 0x9999_0000_0000_0009;

fn slot(fill: u8) -> [u8; 32] {
    [fill; 32]
}

fn flag_slot(value: u64) -> [u8; 32] {
    let mut s = [0u8; 32];
    s[..8].copy_from_slice(&value.to_le_bytes());
    s
}

fn output_for(cluster: [u8; 32], account: [u8; 32], flags: [u64; 4]) -> SignedOutput {
    SignedOutput {
        cluster,
        computation_account: account,
        signature_valid: true,
        ciphertexts: [
            flag_slot(flags[0]),
            flag_slot(flags[1]),
            flag_slot(flags[2]),
            flag_slot(flags[3]),
        ],
    }
}

#[test]
fn scenario_a_mask_marks_registered_queries() {
    let user = UserContacts { queries: [H2, H9, H4, H7] };
    let registry = GlobalRegistry { registered_users: [H1, H2, H3, H4] };
    assert_eq!(perform_psi(&user, &registry).matches, [1, 0, 1, 0]);
    assert_eq!(compute_match_mask(&[H2, H9, H4, H7], &[H1, H2, H3, H4]), vec![1, 0, 1, 0]);
}

#[test]
fn scenario_b_empty_registry_gives_zero_mask() {
    assert_eq!(compute_match_mask(&[H1, H2, H3, 0], &[]), vec![0, 0, 0, 0]);
    assert_eq!(compute_match_mask(&[], &[]), Vec::<u64>::new());
}

#[test]
fn mask_flags_each_query_by_brute_force() {
    let queries = [0u64, 1, 2, 3, 4, 5];
    let registry = [5u64, 3, 3, 1];
    let mask = compute_match_mask(&queries, &registry);
    for (i, q) in queries.iter().enumerate() {
        let expected = if registry.contains(q) { 1 } else { 0 };
        assert_eq!(mask[i], expected);
    }
}

#[test]
fn mask_ignores_registry_order() {
    let user = UserContacts { queries: [H2, H9, H4, H7] };
    let a = perform_psi(&user, &GlobalRegistry { registered_users: [H1, H2, H3, H4] });
    let b = perform_psi(&user, &GlobalRegistry { registered_users: [H4, H3, H2, H1] });
    assert_eq!(a.matches, b.matches);
}

#[test]
fn duplicate_queries_get_equal_flags() {
    let user = UserContacts { queries: [H2, H9, H2, H9] };
    let registry = GlobalRegistry { registered_users: [H1, H2, H3, H4] };
    assert_eq!(perform_psi(&user, &registry).matches, [1, 0, 1, 0]);
}

#[test]
fn value_matching_several_slots_is_flagged_once() {
    let user = UserContacts { queries: [H3, H1, H1, H1] };
    let registry = GlobalRegistry { registered_users: [H3, H3, H3, H3] };
    assert_eq!(perform_psi(&user, &registry).matches, [1, 0, 0, 0]);
}

#[test]
fn new_registry_is_empty() {
    let registry = init_registry(slot(7));
    assert_eq!(registry.authority, slot(7));
    assert_eq!(registry.user_count, 0);
    assert_eq!(registry.encrypted_users, [[0u8; 32]; 4]);
}

#[test]
fn register_fills_slots_in_order() {
    let mut registry = init_registry(slot(7));
    for i in 0..4u8 {
        assert_eq!(register_user(&mut registry, slot(i + 1)), Ok(i as usize));
        assert_eq!(registry.user_count, i + 1);
    }
    assert_eq!(registry.encrypted_users, [slot(1), slot(2), slot(3), slot(4)]);
}

#[test]
fn snapshot_holds_occupied_slots_only() {
    let mut registry = init_registry(slot(7));
    assert!(registry.snapshot().is_empty());
    register_user(&mut registry, slot(1)).unwrap();
    register_user(&mut registry, slot(2)).unwrap();
    assert_eq!(registry.snapshot(), vec![slot(1), slot(2)]);
}

#[test]
fn scenario_c_full_registry_refuses_and_stays_unchanged() {
    let mut registry = init_registry(slot(7));
    for i in 0..4u8 {
        register_user(&mut registry, slot(i + 1)).unwrap();
    }
    assert_eq!(register_user(&mut registry, slot(5)), Err(PsiError::RegistryFull));
    assert_eq!(registry.user_count, 4);
    assert_eq!(registry.encrypted_users, [slot(1), slot(2), slot(3), slot(4)]);
    assert_eq!(registry.authority, slot(7));
    assert_eq!(register_user(&mut registry, slot(6)), Err(PsiError::RegistryFull));
    assert_eq!(registry.user_count, 4);
}

#[test]
fn arguments_put_key_nonce_queries_then_registry() {
    let mut registry = init_registry(slot(7));
    register_user(&mut registry, slot(21)).unwrap();
    register_user(&mut registry, slot(22)).unwrap();
    let contacts = [slot(11), slot(12), slot(13), slot(14)];
    let args = discover_contacts(&contacts, &registry, slot(9), 42).unwrap();
    assert_eq!(args.len(), 10);
    assert!(matches!(args[0], Argument::X25519Pubkey(k) if k == slot(9)));
    assert!(matches!(args[1], Argument::PlaintextU128(42)));
    for i in 0..4 {
        assert!(matches!(args[2 + i], Argument::EncryptedU64(c) if c == contacts[i]));
    }
    let expected_registry = [slot(21), slot(22), [0u8; 32], [0u8; 32]];
    for i in 0..4 {
        assert!(matches!(args[6 + i], Argument::EncryptedU64(c) if c == expected_registry[i]));
    }
}

#[test]
fn arguments_refuse_wrong_batch_size() {
    let registry = init_registry(slot(7));
    let three = [slot(1), slot(2), slot(3)];
    assert!(matches!(
        discover_contacts(&three, &registry, slot(9), 1),
        Err(PsiError::ShapeMismatch)
    ));
    let five = [slot(1), slot(2), slot(3), slot(4), slot(5)];
    assert!(matches!(
        discover_contacts(&five, &registry, slot(9), 1),
        Err(PsiError::ShapeMismatch)
    ));
}

#[test]
fn decode_reads_leading_word_of_each_slot() {
    let mut high = [0u8; 32];
    high[7] = 0x80;
    let mut beyond = [0u8; 32];
    beyond[8] = 0xff;
    beyond[31] = 1;
    let result = decode_output(&[flag_slot(1), [0u8; 32], high, beyond]);
    assert_eq!(result.matches, [1, 0, 1, 0]);
}

#[test]
fn submit_refuses_reused_identifier_and_unavailable_provider() {
    let mut tracker = ComputationTracker::new();
    assert_eq!(tracker.submit(5, slot(1), slot(2), false), Err(PsiError::ProviderUnavailable));
    assert!(tracker.record(5).is_none());
    assert_eq!(tracker.submit(5, slot(1), slot(2), true), Ok(()));
    assert!(matches!(tracker.record(5).unwrap().state, ComputationState::Queued));
    assert_eq!(tracker.submit(5, slot(3), slot(4), true), Err(PsiError::DuplicateComputation));
    let rec = tracker.record(5).unwrap();
    assert_eq!(rec.cluster, slot(1));
    assert_eq!(rec.computation_account, slot(2));
}

#[test]
fn verified_callback_releases_mask() {
    let mut tracker = ComputationTracker::new();
    tracker.submit(1, slot(1), slot(2), true).unwrap();
    let output = output_for(slot(1), slot(2), [1, 0, 1, 0]);
    let result = tracker.on_callback(1, &output).unwrap();
    assert_eq!(result.matches, [1, 0, 1, 0]);
    assert!(matches!(tracker.record(1).unwrap().state, ComputationState::Verified(_)));
}

#[test]
fn mismatched_output_aborts() {
    let cases = [
        output_for(slot(9), slot(2), [1, 1, 1, 1]),
        output_for(slot(1), slot(9), [1, 1, 1, 1]),
        SignedOutput { signature_valid: false, ..output_for(slot(1), slot(2), [1, 1, 1, 1]) },
    ];
    for output in cases.iter() {
        let mut tracker = ComputationTracker::new();
        tracker.submit(3, slot(1), slot(2), true).unwrap();
        assert!(matches!(tracker.on_callback(3, output), Err(ErrorCode::AbortedComputation)));
        assert!(matches!(tracker.record(3).unwrap().state, ComputationState::Aborted));
    }
}

#[test]
fn unknown_computation_is_refused() {
    let mut tracker = ComputationTracker::new();
    let output = output_for(slot(1), slot(2), [1, 0, 0, 0]);
    assert!(matches!(tracker.on_callback(8, &output), Err(ErrorCode::UnknownComputation)));
    assert!(tracker.record(8).is_none());
}

#[test]
fn scenario_d_second_callback_is_refused() {
    let mut tracker = ComputationTracker::new();
    tracker.submit(77, slot(1), slot(2), true).unwrap();
    let output = output_for(slot(1), slot(2), [0, 1, 0, 0]);
    assert_eq!(tracker.on_callback(77, &output).unwrap().matches, [0, 1, 0, 0]);
    let other = output_for(slot(1), slot(2), [1, 1, 1, 1]);
    assert!(matches!(tracker.on_callback(77, &other), Err(ErrorCode::ComputationResolved)));
    match tracker.record(77).unwrap().state {
        ComputationState::Verified(slots) => {
            assert_eq!(decode_output(&slots).matches, [0, 1, 0, 0]);
        }
        _ => panic!("state changed by a second callback"),
    }
}

#[test]
fn aborted_computation_refuses_later_callback() {
    let mut tracker = ComputationTracker::new();
    tracker.submit(4, slot(1), slot(2), true).unwrap();
    let bad = output_for(slot(9), slot(2), [1, 0, 0, 0]);
    assert!(matches!(tracker.on_callback(4, &bad), Err(ErrorCode::AbortedComputation)));
    let good = output_for(slot(1), slot(2), [1, 0, 0, 0]);
    assert!(matches!(tracker.on_callback(4, &good), Err(ErrorCode::ComputationResolved)));
    assert!(matches!(tracker.record(4).unwrap().state, ComputationState::Aborted));
}

#[test]
fn callback_publishes_notification_without_result() {
    let mut tracker = ComputationTracker::new();
    tracker.submit(2, slot(1), slot(2), true).unwrap();
    let output = output_for(slot(1), slot(2), [1, 1, 0, 0]);
    let event = perform_psi_callback(&mut tracker, 2, &output, 1_700_000_000).unwrap();
    assert_eq!(event.user, slot(2));
    assert_eq!(event.timestamp, 1_700_000_000);
    assert!(matches!(
        perform_psi_callback(&mut tracker, 2, &output, 1_700_000_001),
        Err(ErrorCode::ComputationResolved)
    ));
}

#[test]
fn builder_holds_arguments_in_order() {
    let mut registry = init_registry(slot(7));
    register_user(&mut registry, slot(21)).unwrap();
    let contacts = [slot(11), slot(12), slot(13), slot(14)];
    let args = discover_contacts(&contacts, &registry, slot(9), 42).unwrap();
    let list = to_arg_builder(&args).build();
    assert_eq!(list.args.len(), 10);
    assert!(matches!(list.args[0], ArgumentRef::X25519Pubkey(0)));
    assert!(matches!(list.args[1], ArgumentRef::PlaintextU128(0)));
    for i in 0..8 {
        assert!(matches!(list.args[2 + i], ArgumentRef::EncryptedU64(k) if k as usize == i + 1));
    }
    assert_eq!(list.values_128_bit, vec![42u128]);
    assert_eq!(
        list.byte_arrays,
        vec![
            slot(9),
            slot(11),
            slot(12),
            slot(13),
            slot(14),
            slot(21),
            [0u8; 32],
            [0u8; 32],
            [0u8; 32],
        ]
    );
}
