use block_space_alloc::states::{
    BlockSpaceAllocator, BudgetPlan, EncryptedTxBatchAllocator, NextState,
    NextStateWithEncryptedTxs, NextStateWithoutEncryptedTxs, Phase, TryAlloc,
};
use block_space_alloc::tracker::{AllocFailure, SpaceTracker};

fn plan() -> BudgetPlan {
    BudgetPlan::new(1000, 200, 300, 300).unwrap()
}

fn rejected(n: usize) -> Result<(), AllocFailure> {
    Err(AllocFailure::Rejected { bin_space_left: n })
}

#[test]
fn end_to_end_first_phase_and_carry_forward() {
    let mut alloc = BlockSpaceAllocator::new(plan());
    assert_eq!(alloc.capacity(), 200);
    assert_eq!(alloc.try_alloc(&[0u8; 50]), Ok(()));
    assert_eq!(alloc.try_alloc(&[0u8; 80]), Ok(()));
    assert_eq!(alloc.used(), 130);
    assert_eq!(alloc.remaining(), 70);
    assert_eq!(alloc.try_alloc(&[0u8; 90]), rejected(70));
    assert_eq!(alloc.used(), 130);
    let next = alloc.next_state();
    assert_eq!(next.capacity(), plan().budget(Phase::ProtocolTxs) + 70);
    assert_eq!(next.capacity(), 370);
    assert_eq!(next.used(), 0);
}

#[test]
fn fused_allocator_sticks_after_rejection() {
    let mut alloc = BlockSpaceAllocator::new(BudgetPlan::new(1000, 10, 0, 0).unwrap()).fuse();
    assert!(!alloc.has_run_out_of_space());
    assert_eq!(alloc.try_alloc(&[0u8; 15]), rejected(10));
    assert!(alloc.has_run_out_of_space());
    assert_eq!(alloc.try_alloc(&[0u8; 1]), rejected(0));
    assert_eq!(alloc.inner().used(), 0);
    assert_eq!(alloc.inner().remaining(), 10);
}

#[test]
fn fused_allocator_passes_successes_through() {
    let mut alloc = BlockSpaceAllocator::new(plan()).fuse();
    assert_eq!(alloc.try_alloc(&[1u8; 200]), Ok(()));
    assert!(!alloc.has_run_out_of_space());
    assert_eq!(alloc.inner().used(), 200);
    assert_eq!(alloc.try_alloc(&[]), Ok(()));
    assert_eq!(alloc.try_alloc(&[1u8]), rejected(0));
    assert!(alloc.has_run_out_of_space());
    let next = alloc.next_state();
    assert_eq!(next.capacity(), 300);
}

#[test]
fn budget_never_exceeded() {
    let mut alloc = BlockSpaceAllocator::new(plan());
    for len in [30usize, 70, 1, 99, 50, 0, 1] {
        let _ = alloc.try_alloc(&vec![0u8; len]);
        assert!(alloc.used() <= alloc.capacity());
    }
    assert_eq!(alloc.used(), 200);
    assert_eq!(alloc.try_alloc(&[]), Ok(()));
    assert_eq!(alloc.try_alloc(&[0u8]), rejected(0));
}

#[test]
fn exact_fit_is_admitted() {
    let mut alloc = BlockSpaceAllocator::new(plan());
    assert_eq!(alloc.try_alloc(&[0u8; 200]), Ok(()));
    assert_eq!(alloc.remaining(), 0);
}

#[test]
fn whole_block_conserves_bytes() {
    let mut first = BlockSpaceAllocator::new(plan());
    assert_eq!(first.try_alloc(&[0u8; 150]), Ok(()));
    let mut second = first.next_state();
    assert_eq!(second.capacity(), 350);
    assert_eq!(second.try_alloc(&[0u8; 100]), Ok(()));
    let mut third = second.next_state_with_encrypted_txs();
    assert_eq!(third.capacity(), 550);
    assert_eq!(third.try_alloc(&[0u8; 500]), Ok(()));
    let mut fourth = third.next_state();
    assert_eq!(fourth.capacity(), 250);
    assert_eq!(fourth.try_alloc(&[0u8; 251]), rejected(250));
    assert_eq!(fourth.try_alloc(&[0u8; 250]), Ok(()));
    assert_eq!(150 + 100 + 500 + 250, plan().total());
}

#[test]
fn without_encrypted_txs_admits_nothing() {
    let second = BlockSpaceAllocator::new(plan()).next_state();
    let mut third = EncryptedTxBatchAllocator::from_protocol_batch(second, false);
    assert!(!third.allows_encrypted_txs());
    assert_eq!(third.try_alloc(&[0u8; 1]), rejected(0));
    assert_eq!(third.try_alloc(&[]), rejected(0));
    let fourth = third.next_state();
    assert_eq!(fourth.capacity(), 200 + 300 + 300 + 200);
}

#[test]
fn with_encrypted_txs_admits_within_budget() {
    let second = BlockSpaceAllocator::new(plan()).next_state();
    let mut third = EncryptedTxBatchAllocator::from_protocol_batch(second, true);
    assert!(third.allows_encrypted_txs());
    assert_eq!(third.try_alloc(&[0u8; 800]), Ok(()));
    assert_eq!(third.try_alloc(&[0u8; 1]), rejected(0));
    let fourth = third.next_state();
    assert_eq!(fourth.capacity(), 200);
}

#[test]
fn without_mode_transition_keeps_budget() {
    let second = BlockSpaceAllocator::new(plan()).next_state();
    let third = second.next_state_without_encrypted_txs();
    assert_eq!(third.capacity(), 800);
    let fourth = third.next_state();
    assert_eq!(fourth.capacity(), 1000);
}

#[test]
fn budget_plan_rejects_oversized_shares() {
    assert!(BudgetPlan::new(1000, 500, 300, 201).is_none());
    assert!(BudgetPlan::new(usize::MAX, usize::MAX, 1, 0).is_none());
    let p = BudgetPlan::new(1000, 500, 300, 200).unwrap();
    assert_eq!(p.budget(Phase::RemainingSpace), 0);
    assert_eq!(p.budget(Phase::DecryptedTxs), 500);
    assert_eq!(p.budget(Phase::EncryptedTxs), 200);
}

#[test]
fn zero_capacity_block() {
    let mut alloc = BlockSpaceAllocator::new(BudgetPlan::new(0, 0, 0, 0).unwrap());
    assert_eq!(alloc.try_alloc(&[]), Ok(()));
    assert_eq!(alloc.try_alloc(&[7u8]), rejected(0));
}

#[test]
fn tracker_counts_bytes() {
    let mut t = SpaceTracker::new(10);
    assert_eq!(t.try_admit(4), Ok(()));
    assert_eq!(t.try_admit(7), rejected(6));
    assert_eq!(t.used(), 4);
    assert_eq!(t.try_admit(6), Ok(()));
    assert_eq!(t.remaining(), 0);
    assert_eq!(t.capacity(), 10);
    assert_eq!(t.try_admit(usize::MAX), rejected(0));
}
