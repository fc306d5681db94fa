//! The states of the block-space allocator over one consensus round's
//! block proposal.
//!
//! The allocator moves through four phases, in this order:
//!
//! 1. [`BuildingDecryptedTxBatch`]: the block takes decrypted txs.
//! 2. [`BuildingProtocolTxBatch`]: the block takes protocol txs.
//! 3. [`BuildingEncryptedTxBatch`]: the block takes encrypted txs. This
//!    phase is entered in one of two modes, fixed for its whole duration:
//!    [`WithEncryptedTxs`], where encrypted txs are admitted, and
//!    [`WithoutEncryptedTxs`], where none is.
//! 4. [`FillingRemainingSpace`]: what space is left is filled with any
//!    protocol txs not yet included.
//!
//! Each phase owns a [`SpaceTracker`] whose capacity is the phase's
//! configured budget plus whatever the previous phase left unused.
//! A transition consumes the allocator of one phase and returns the
//! allocator of the next; no operation leads back to an earlier phase.

use crate::tracker::{AllocFailure, SpaceTracker};
use core::marker::PhantomData;
use vstd::prelude::*;

verus! {

/// The four phases of block-space allocation.
#[derive(Debug, Clone, Copy, PartialEq, Eq, Structural)]
pub enum Phase {
    DecryptedTxs,
    ProtocolTxs,
    EncryptedTxs,
    RemainingSpace,
}

/// The position of a phase in the order in which they are visited.
pub open spec fn phase_rank(p: Phase) -> nat {
    match p {
        Phase::DecryptedTxs => 0,
        Phase::ProtocolTxs => 1,
        Phase::EncryptedTxs => 2,
        Phase::RemainingSpace => 3,
    }
}

/// A type tied to one phase: a phase marker, or an allocator in that phase.
pub trait InPhase {
    spec fn phase() -> Phase;
}

/// How a block's byte capacity is shared out over the phases. The last
/// phase is given whatever the first three are not.
#[derive(Debug, Clone, Copy)]
pub struct BudgetPlan {
    total: usize,
    decrypted: usize,
    protocol: usize,
    encrypted: usize,
}

impl BudgetPlan {
    #[verifier::type_invariant]
    spec fn shares_fit(self) -> bool {
        self.decrypted + self.protocol + self.encrypted <= self.total
    }

    /// The byte capacity of the whole block.
    pub closed spec fn spec_total(self) -> nat {
        self.total as nat
    }

    /// The budget configured for phase `p`.
    pub closed spec fn spec_budget(self, p: Phase) -> nat {
        match p {
            Phase::DecryptedTxs => self.decrypted as nat,
            Phase::ProtocolTxs => self.protocol as nat,
            Phase::EncryptedTxs => self.encrypted as nat,
            Phase::RemainingSpace => (self.total - self.decrypted - self.protocol
                - self.encrypted) as nat,
        }
    }

    /// The budgets configured for the phases after `p`, together.
    pub open spec fn spec_pending(self, p: Phase) -> nat {
        match p {
            Phase::DecryptedTxs => self.spec_budget(Phase::ProtocolTxs) + self.spec_budget(
                Phase::EncryptedTxs,
            ) + self.spec_budget(Phase::RemainingSpace),
            Phase::ProtocolTxs => self.spec_budget(Phase::EncryptedTxs) + self.spec_budget(
                Phase::RemainingSpace,
            ),
            Phase::EncryptedTxs => self.spec_budget(Phase::RemainingSpace),
            Phase::RemainingSpace => 0,
        }
    }

    /// The plan that gives the first three phases the budgets named and
    /// the last phase the rest of `total`; `None` where those three
    /// budgets add up to more than `total`.
    pub fn new(total: usize, decrypted: usize, protocol: usize, encrypted: usize) -> (r: Option<
        Self,
    >)
        ensures
            r is Some <==> decrypted + protocol + encrypted <= total,
            r matches Some(plan) ==> {
                &&& plan.spec_total() == total
                &&& plan.spec_budget(Phase::DecryptedTxs) == decrypted
                &&& plan.spec_budget(Phase::ProtocolTxs) == protocol
                &&& plan.spec_budget(Phase::EncryptedTxs) == encrypted
                &&& plan.spec_budget(Phase::RemainingSpace) == total - decrypted - protocol
                    - encrypted
            },
    {
        if decrypted <= total && protocol <= total - decrypted && encrypted <= total - decrypted
            - protocol {
            Some(BudgetPlan { total, decrypted, protocol, encrypted })
        } else {
            None
        }
    }

    pub fn total(&self) -> (r: usize)
        ensures
            r == self.spec_total(),
    {
        self.total
    }

    /// The budget configured for phase `p`.
    pub fn budget(&self, p: Phase) -> (r: usize)
        ensures
            r == self.spec_budget(p),
    {
        proof {
            use_type_invariant(self);
        }
        match p {
            Phase::DecryptedTxs => self.decrypted,
            Phase::ProtocolTxs => self.protocol,
            Phase::EncryptedTxs => self.encrypted,
            Phase::RemainingSpace => self.total - self.decrypted - self.protocol - self.encrypted,
        }
    }
}


/// Phase 1: the round leader is building a batch of decrypted txs.
pub struct BuildingDecryptedTxBatch;

/// Phase 2: the round leader is building a batch of protocol txs.
pub struct BuildingProtocolTxBatch;

/// Phase 3: the round leader is building a batch of encrypted txs, in
/// one of the modes [`WithEncryptedTxs`] and [`WithoutEncryptedTxs`].
pub struct BuildingEncryptedTxBatch<Mode> {
    _mode: Mode,
}

/// Phase 4: the round leader fills what space is left with protocol txs
/// not yet included in the block.
pub struct FillingRemainingSpace;

/// Mode of phase 3 in which encrypted txs may enter the block.
pub struct WithEncryptedTxs;

/// Mode of phase 3 in which no encrypted tx enters the block.
pub struct WithoutEncryptedTxs;

impl InPhase for BuildingDecryptedTxBatch {
    open spec fn phase() -> Phase {
        Phase::DecryptedTxs
    }
}

impl InPhase for BuildingProtocolTxBatch {
    open spec fn phase() -> Phase {
        Phase::ProtocolTxs
    }
}

impl<Mode> InPhase for BuildingEncryptedTxBatch<Mode> {
    open spec fn phase() -> Phase {
        Phase::EncryptedTxs
    }
}

impl InPhase for FillingRemainingSpace {
    open spec fn phase() -> Phase {
        Phase::RemainingSpace
    }
}

/// The allocator of block space while in phase `S`.
///
/// Its tracker's capacity, the configured budgets of the phases still
/// to come, and the bytes admitted in earlier phases always add up to
/// the block's capacity.
pub struct BlockSpaceAllocator<S: InPhase> {
    tracker: SpaceTracker,
    plan: BudgetPlan,
    committed: Ghost<nat>,
    _state: PhantomData<S>,
}

impl<S: InPhase> InPhase for BlockSpaceAllocator<S> {
    open spec fn phase() -> Phase {
        S::phase()
    }
}

impl<S: InPhase> BlockSpaceAllocator<S> {
    /// Within the phase, no more is used than the capacity; over the
    /// block, no byte is gained or lost.
    #[verifier::type_invariant]
    pub closed spec fn wf(self) -> bool {
        &&& self.tracker.spec_used() <= self.tracker.spec_capacity()
        &&& self.committed@ + self.tracker.spec_capacity() + self.plan.spec_pending(S::phase())
            == self.plan.spec_total()
    }

    /// The tracker of the current phase.
    pub closed spec fn spec_tracker(self) -> SpaceTracker {
        self.tracker
    }

    /// The budget plan the allocator was made with.
    pub closed spec fn spec_plan(self) -> BudgetPlan {
        self.plan
    }

    /// The bytes admitted in the phases already left.
    pub closed spec fn spec_committed(self) -> nat {
        self.committed@
    }

    /// The capacity of the current phase.
    pub open spec fn spec_capacity(self) -> nat {
        self.spec_tracker().spec_capacity()
    }

    /// The bytes admitted in the current phase.
    pub open spec fn spec_used(self) -> nat {
        self.spec_tracker().spec_used()
    }

    /// The bytes the current phase can still admit.
    pub open spec fn spec_remaining(self) -> nat {
        self.spec_tracker().spec_remaining()
    }

    /// Whether `r` and `after` are what an attempt to admit a tx of
    /// `len` bytes into `before` gives, in a phase that admits txs.
    pub open spec fn admits(before: Self, len: nat, after: Self, r: Result<(), AllocFailure>) -> bool {
        &&& SpaceTracker::admits(before.spec_tracker(), len, after.spec_tracker(), r)
        &&& after.spec_plan() == before.spec_plan()
        &&& after.spec_committed() == before.spec_committed()
        &&& r is Err ==> after == before
    }

    /// Wraps this allocator into one that remembers whether it ever
    /// refused a tx.
    pub fn fuse(self) -> (r: FusedBlockSpaceAllocator<S>)
        ensures
            r.spec_inner() == self,
            !r.spec_ran_out_of_space(),
    {
        FusedBlockSpaceAllocator { alloc: self, ran_out_of_space: false }
    }

    pub fn capacity(&self) -> (r: usize)
        ensures
            r == self.spec_capacity(),
    {
        self.tracker.capacity()
    }

    pub fn used(&self) -> (r: usize)
        ensures
            r == self.spec_used(),
    {
        self.tracker.used()
    }

    pub fn remaining(&self) -> (r: usize)
        ensures
            r == self.spec_remaining(),
    {
        self.tracker.remaining()
    }

    pub fn plan(&self) -> (r: BudgetPlan)
        ensures
            r == self.spec_plan(),
    {
        self.plan
    }

    /// Admits `tx` if it fits in what this phase has left.
    fn take_space(&mut self, tx: &[u8]) -> (r: Result<(), AllocFailure>)
        ensures
            Self::admits(*old(self), tx@.len(), *final(self), r),
    {
        proof {
            use_type_invariant(&*self);
        }
        self.tracker.try_admit(tx.len())
    }

    /// Ends this phase and opens phase `N`, which directly follows it.
    fn advance<N: InPhase>(self, next: Phase) -> (r: BlockSpaceAllocator<N>)
        requires
            next == N::phase(),
            phase_rank(N::phase()) == phase_rank(S::phase()) + 1,
        ensures
            carries_forward(self, r),
    {
        proof {
            use_type_invariant(&self);
            use_type_invariant(&self.plan);
        }
        let left = self.tracker.remaining();
        let budget = self.plan.budget(next);
        BlockSpaceAllocator {
            tracker: SpaceTracker::new(budget + left),
            plan: self.plan,
            committed: Ghost(self.committed@ + self.tracker.spec_used()),
            _state: PhantomData,
        }
    }
}

/// Whether `after`, an allocator of the phase after `before`'s, is what
/// ending `before`'s phase gives: its capacity is its phase's configured
/// budget plus what `before` left unused, and nothing of it is used yet.
pub open spec fn carries_forward<S: InPhase, N: InPhase>(
    before: BlockSpaceAllocator<S>,
    after: BlockSpaceAllocator<N>,
) -> bool {
    &&& after.spec_capacity() == before.spec_plan().spec_budget(N::phase())
        + before.spec_remaining()
    &&& after.spec_used() == 0
    &&& after.spec_plan() == before.spec_plan()
    &&& after.spec_committed() == before.spec_committed() + before.spec_used()
}

/// Try to place a tx in the block being built.
pub trait TryAlloc: Sized {
    /// Whether `r` and `after` are what an attempt to allocate a tx of
    /// `len` bytes on `before` gives.
    spec fn alloc_outcome(before: Self, len: nat, after: Self, r: Result<(), AllocFailure>) -> bool;

    /// Try to allocate space for the tx `tx`.
    fn try_alloc(&mut self, tx: &[u8]) -> (r: Result<(), AllocFailure>)
        ensures
            Self::alloc_outcome(*old(self), tx@.len(), *final(self), r),
    ;
}

impl TryAlloc for BlockSpaceAllocator<BuildingDecryptedTxBatch> {
    open spec fn alloc_outcome(before: Self, len: nat, after: Self, r: Result<(), AllocFailure>) -> bool {
        Self::admits(before, len, after, r)
    }

    fn try_alloc(&mut self, tx: &[u8]) -> (r: Result<(), AllocFailure>) {
        self.take_space(tx)
    }
}

impl TryAlloc for BlockSpaceAllocator<BuildingProtocolTxBatch> {
    open spec fn alloc_outcome(before: Self, len: nat, after: Self, r: Result<(), AllocFailure>) -> bool {
        Self::admits(before, len, after, r)
    }

    fn try_alloc(&mut self, tx: &[u8]) -> (r: Result<(), AllocFailure>) {
        self.take_space(tx)
    }
}

impl TryAlloc for BlockSpaceAllocator<BuildingEncryptedTxBatch<WithEncryptedTxs>> {
    open spec fn alloc_outcome(before: Self, len: nat, after: Self, r: Result<(), AllocFailure>) -> bool {
        Self::admits(before, len, after, r)
    }

    fn try_alloc(&mut self, tx: &[u8]) -> (r: Result<(), AllocFailure>) {
        self.take_space(tx)
    }
}

impl TryAlloc for BlockSpaceAllocator<FillingRemainingSpace> {
    open spec fn alloc_outcome(before: Self, len: nat, after: Self, r: Result<(), AllocFailure>) -> bool {
        Self::admits(before, len, after, r)
    }

    fn try_alloc(&mut self, tx: &[u8]) -> (r: Result<(), AllocFailure>) {
        self.take_space(tx)
    }
}

/// A [`BlockSpaceAllocator`] that keeps track of whether any bin space
/// is left or not.
pub struct FusedBlockSpaceAllocator<S: InPhase> {
    /// The inner allocator.
    alloc: BlockSpaceAllocator<S>,
    /// Set once an allocation has been refused: from then on the current
    /// phase takes no more txs.
    ran_out_of_space: bool,
}

impl<S: InPhase> InPhase for FusedBlockSpaceAllocator<S> {
    open spec fn phase() -> Phase {
        S::phase()
    }
}

impl<S: InPhase> FusedBlockSpaceAllocator<S> {
    /// The wrapped allocator.
    pub closed spec fn spec_inner(self) -> BlockSpaceAllocator<S> {
        self.alloc
    }

    /// Whether an allocation has been refused.
    pub closed spec fn spec_ran_out_of_space(self) -> bool {
        self.ran_out_of_space
    }

    /// Check whether this allocator has refused an allocation, after
    /// which it has no bin space left.
    pub fn has_run_out_of_space(&self) -> (r: bool)
        ensures
            r == self.spec_ran_out_of_space(),
    {
        self.ran_out_of_space
    }

    /// The wrapped allocator.
    pub fn inner(&self) -> (r: &BlockSpaceAllocator<S>)
        ensures
            *r == self.spec_inner(),
    {
        &self.alloc
    }
}

impl<S: InPhase> TryAlloc for FusedBlockSpaceAllocator<S> where
    BlockSpaceAllocator<S>: TryAlloc,
 {
    /// Once out of space, every attempt is refused with no space left and
    /// changes nothing; before that, the inner allocator decides, and a
    /// refusal from it marks the allocator as out of space.
    open spec fn alloc_outcome(before: Self, len: nat, after: Self, r: Result<(), AllocFailure>) -> bool {
        if before.spec_ran_out_of_space() {
            &&& r == Err::<(), AllocFailure>(AllocFailure::Rejected { bin_space_left: 0 })
            &&& after == before
        } else {
            &&& BlockSpaceAllocator::<S>::alloc_outcome(
                before.spec_inner(),
                len,
                after.spec_inner(),
                r,
            )
            &&& after.spec_ran_out_of_space() == r is Err
        }
    }

    fn try_alloc(&mut self, tx: &[u8]) -> (r: Result<(), AllocFailure>) {
        if self.ran_out_of_space {
            return Err(AllocFailure::Rejected { bin_space_left: 0 });
        }
        let r = self.alloc.try_alloc(tx);
        if r.is_err() {
            self.ran_out_of_space = true;
        }
        r
    }
}

/// A state transition of the allocator, selected by `Transition`.
///
/// Use it through [`NextState`], [`NextStateWithEncryptedTxs`] or
/// [`NextStateWithoutEncryptedTxs`].
pub trait NextStateImpl<Transition = ()>: InPhase + Sized {
    /// The next state of the allocator.
    type Next: InPhase;

    /// Whether `after` is what the transition makes of `before`.
    spec fn transition_outcome(before: Self, after: Self::Next) -> bool;

    /// The transition leads to the phase right after the current one.
    proof fn lemma_next_phase()
        ensures
            phase_rank(<Self::Next as InPhase>::phase()) == phase_rank(Self::phase()) + 1,
    ;

    /// Move to the next state of the allocator.
    fn next_state_impl(self) -> (r: Self::Next)
        ensures
            Self::transition_outcome(self, r),
    ;
}

/// The transition into phase 3 in which encrypted txs are admitted.
pub trait NextStateWithEncryptedTxs: NextStateImpl<WithEncryptedTxs> {
    fn next_state_with_encrypted_txs(self) -> (r: Self::Next)
        ensures
            Self::transition_outcome(self, r),
    {
        self.next_state_impl()
    }
}

impl<S> NextStateWithEncryptedTxs for S where S: NextStateImpl<WithEncryptedTxs> {}

/// The transition into phase 3 in which no encrypted tx is admitted.
pub trait NextStateWithoutEncryptedTxs: NextStateImpl<WithoutEncryptedTxs> {
    fn next_state_without_encrypted_txs(self) -> (r: Self::Next)
        ensures
            Self::transition_outcome(self, r),
    {
        self.next_state_impl()
    }
}

impl<S> NextStateWithoutEncryptedTxs for S where S: NextStateImpl<WithoutEncryptedTxs> {}

/// The transition out of a phase with a single successor.
pub trait NextState: NextStateImpl {
    fn next_state(self) -> (r: Self::Next)
        ensures
            Self::transition_outcome(self, r),
    {
        self.next_state_impl()
    }
}

impl<S> NextState for S where S: NextStateImpl {}

impl NextStateImpl for BlockSpaceAllocator<BuildingDecryptedTxBatch> {
    type Next = BlockSpaceAllocator<BuildingProtocolTxBatch>;

    open spec fn transition_outcome(before: Self, after: Self::Next) -> bool {
        carries_forward(before, after)
    }

    proof fn lemma_next_phase() {
    }

    fn next_state_impl(self) -> (r: Self::Next) {
        self.advance(Phase::ProtocolTxs)
    }
}

impl NextStateImpl<WithEncryptedTxs> for BlockSpaceAllocator<BuildingProtocolTxBatch> {
    type Next = BlockSpaceAllocator<BuildingEncryptedTxBatch<WithEncryptedTxs>>;

    open spec fn transition_outcome(before: Self, after: Self::Next) -> bool {
        carries_forward(before, after)
    }

    proof fn lemma_next_phase() {
    }

    fn next_state_impl(self) -> (r: Self::Next) {
        self.advance(Phase::EncryptedTxs)
    }
}

impl NextStateImpl<WithoutEncryptedTxs> for BlockSpaceAllocator<BuildingProtocolTxBatch> {
    type Next = BlockSpaceAllocator<BuildingEncryptedTxBatch<WithoutEncryptedTxs>>;

    open spec fn transition_outcome(before: Self, after: Self::Next) -> bool {
        carries_forward(before, after)
    }

    proof fn lemma_next_phase() {
    }

    fn next_state_impl(self) -> (r: Self::Next) {
        self.advance(Phase::EncryptedTxs)
    }
}

impl<Mode> NextStateImpl for BlockSpaceAllocator<BuildingEncryptedTxBatch<Mode>> {
    type Next = BlockSpaceAllocator<FillingRemainingSpace>;

    open spec fn transition_outcome(before: Self, after: Self::Next) -> bool {
        carries_forward(before, after)
    }

    proof fn lemma_next_phase() {
    }

    fn next_state_impl(self) -> (r: Self::Next) {
        self.advance(Phase::RemainingSpace)
    }
}

impl<S: InPhase, T> NextStateImpl<T> for FusedBlockSpaceAllocator<S> where
    BlockSpaceAllocator<S>: NextStateImpl<T>,
 {
    type Next = <BlockSpaceAllocator<S> as NextStateImpl<T>>::Next;

    open spec fn transition_outcome(before: Self, after: Self::Next) -> bool {
        <BlockSpaceAllocator<S> as NextStateImpl<T>>::transition_outcome(before.spec_inner(), after)
    }

    proof fn lemma_next_phase() {
        <BlockSpaceAllocator<S> as NextStateImpl<T>>::lemma_next_phase();
    }

    fn next_state_impl(self) -> (r: Self::Next) {
        self.alloc.next_state_impl()
    }
}

impl BlockSpaceAllocator<BuildingDecryptedTxBatch> {
    /// The allocator at the start of a round: phase 1, with that phase's
    /// configured budget as its capacity and nothing used.
    pub fn new(plan: BudgetPlan) -> (r: Self)
        ensures
            r.spec_capacity() == plan.spec_budget(Phase::DecryptedTxs),
            r.spec_used() == 0,
            r.spec_plan() == plan,
            r.spec_committed() == 0,
    {
        proof {
            use_type_invariant(&plan);
        }
        let budget = plan.budget(Phase::DecryptedTxs);
        BlockSpaceAllocator {
            tracker: SpaceTracker::new(budget),
            plan,
            committed: Ghost(0),
            _state: PhantomData,
        }
    }
}

/// A phase-3 allocator in whichever mode was chosen for the round.
pub enum EncryptedTxBatchAllocator {
    WithEncryptedTxs(BlockSpaceAllocator<BuildingEncryptedTxBatch<WithEncryptedTxs>>),
    WithoutEncryptedTxs(BlockSpaceAllocator<BuildingEncryptedTxBatch<WithoutEncryptedTxs>>),
}

impl InPhase for EncryptedTxBatchAllocator {
    open spec fn phase() -> Phase {
        Phase::EncryptedTxs
    }
}

impl EncryptedTxBatchAllocator {
    /// Ends phase 2 of `alloc` and enters phase 3 in the mode that
    /// `encrypted_txs_allowed` selects.
    pub fn from_protocol_batch(
        alloc: BlockSpaceAllocator<BuildingProtocolTxBatch>,
        encrypted_txs_allowed: bool,
    ) -> (r: Self)
        ensures
            encrypted_txs_allowed ==> (r matches Self::WithEncryptedTxs(a) && carries_forward(
                alloc,
                a,
            )),
            !encrypted_txs_allowed ==> (r matches Self::WithoutEncryptedTxs(a) && carries_forward(
                alloc,
                a,
            )),
    {
        if encrypted_txs_allowed {
            Self::WithEncryptedTxs(alloc.next_state_with_encrypted_txs())
        } else {
            Self::WithoutEncryptedTxs(alloc.next_state_without_encrypted_txs())
        }
    }

    /// Whether this allocator admits encrypted txs.
    pub fn allows_encrypted_txs(&self) -> (r: bool)
        ensures
            r == self is WithEncryptedTxs,
    {
        match self {
            Self::WithEncryptedTxs(_) => true,
            Self::WithoutEncryptedTxs(_) => false,
        }
    }
}

impl TryAlloc for EncryptedTxBatchAllocator {
    /// With encrypted txs, the phase's tracker decides; without them,
    /// every tx is refused with no space left and nothing changes.
    open spec fn alloc_outcome(before: Self, len: nat, after: Self, r: Result<(), AllocFailure>) -> bool {
        match before {
            Self::WithEncryptedTxs(a) => after matches Self::WithEncryptedTxs(b)
                && BlockSpaceAllocator::<BuildingEncryptedTxBatch<WithEncryptedTxs>>::admits(
                a,
                len,
                b,
                r,
            ),
            Self::WithoutEncryptedTxs(_) => {
                &&& r == Err::<(), AllocFailure>(AllocFailure::Rejected { bin_space_left: 0 })
                &&& after == before
            },
        }
    }

    fn try_alloc(&mut self, tx: &[u8]) -> (r: Result<(), AllocFailure>) {
        match self {
            Self::WithEncryptedTxs(alloc) => alloc.try_alloc(tx),
            Self::WithoutEncryptedTxs(_) => Err(AllocFailure::Rejected { bin_space_left: 0 }),
        }
    }
}

impl NextStateImpl for EncryptedTxBatchAllocator {
    type Next = BlockSpaceAllocator<FillingRemainingSpace>;

    open spec fn transition_outcome(before: Self, after: Self::Next) -> bool {
        match before {
            Self::WithEncryptedTxs(a) => carries_forward(a, after),
            Self::WithoutEncryptedTxs(a) => carries_forward(a, after),
        }
    }

    proof fn lemma_next_phase() {
    }

    fn next_state_impl(self) -> (r: Self::Next) {
        match self {
            Self::WithEncryptedTxs(alloc) => alloc.next_state(),
            Self::WithoutEncryptedTxs(alloc) => alloc.next_state(),
        }
    }
}

/// Within a phase, the bytes admitted never exceed the phase's capacity,
/// and the bytes admitted over the whole block never exceed the block's
/// capacity, whatever txs were admitted or refused before.
pub proof fn lemma_budget_invariant<S: InPhase>(alloc: BlockSpaceAllocator<S>)
    requires
        alloc.wf(),
    ensures
        alloc.spec_used() <= alloc.spec_capacity(),
        alloc.spec_committed() + alloc.spec_used() <= alloc.spec_plan().spec_total(),
{
}

/// A transition gives the next phase its configured budget plus exactly
/// what the phase left unused: the bytes not yet admitted and the bytes
/// admitted so far together stay what they were.
pub proof fn lemma_carry_forward_conservation<S: InPhase, N: InPhase>(
    before: BlockSpaceAllocator<S>,
    after: BlockSpaceAllocator<N>,
)
    requires
        before.wf(),
        after.wf(),
        carries_forward(before, after),
    ensures
        after.spec_capacity() == before.spec_plan().spec_budget(N::phase()) + (
        before.spec_capacity() - before.spec_used()),
        after.spec_committed() + after.spec_capacity() + after.spec_plan().spec_pending(N::phase())
            == before.spec_committed() + before.spec_capacity() + before.spec_plan().spec_pending(
            S::phase(),
        ),
{
}

/// Once a fused allocator has refused a tx, every later attempt on it is
/// refused with no space left, whatever the tx's size, and leaves the
/// allocator, its inner tracker included, as it was.
pub proof fn lemma_sticky_exhaustion<S: InPhase>(
    first: FusedBlockSpaceAllocator<S>,
    len1: nat,
    second: FusedBlockSpaceAllocator<S>,
    r1: Result<(), AllocFailure>,
    len2: nat,
    third: FusedBlockSpaceAllocator<S>,
    r2: Result<(), AllocFailure>,
)
    where
        BlockSpaceAllocator<S>: TryAlloc,
    requires
        FusedBlockSpaceAllocator::<S>::alloc_outcome(first, len1, second, r1),
        r1 is Err,
        FusedBlockSpaceAllocator::<S>::alloc_outcome(second, len2, third, r2),
    ensures
        second.spec_ran_out_of_space(),
        r2 == Err::<(), AllocFailure>(AllocFailure::Rejected { bin_space_left: 0 }),
        third == second,
        third.spec_inner().spec_used() == second.spec_inner().spec_used(),
{
}

/// A phase-3 allocator without encrypted txs admits no tx, however much
/// budget remains, and stays as it is, so this holds for its lifetime.
pub proof fn lemma_mode_permanence(
    before: EncryptedTxBatchAllocator,
    len: nat,
    after: EncryptedTxBatchAllocator,
    r: Result<(), AllocFailure>,
)
    requires
        before is WithoutEncryptedTxs,
        EncryptedTxBatchAllocator::alloc_outcome(before, len, after, r),
    ensures
        r is Err,
        after == before,
        after is WithoutEncryptedTxs,
{
}

/// Every transition moves on to the phase right after the current one;
/// allocations and fusing keep the phase. So no sequence of operations
/// leads back to a phase that was left.
pub proof fn lemma_phase_monotonic<A: NextStateImpl<T>, T>()
    ensures
        phase_rank(A::phase()) < phase_rank(<A::Next as InPhase>::phase()),
{
    A::lemma_next_phase();
}

} // verus!
