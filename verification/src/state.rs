//! The transition-state model: the agreed pre-state of a round, the step that
//! appends a newly derived block to it, and the canonical bytes that a
//! commitment is the hash of.

use crate::primitives::{hash_bytes, keccak256_word, Hash256};
use crate::rlp::{
    be_fixed, encode_bytes, encode_list, encode_u64, push_be_fixed, rlp_bytes, rlp_list, rlp_u64,
};
use vstd::prelude::*;

verus! {

/// The first byte of the canonical bytes of a snapshot of output roots.
pub const SUPER_ROOT_VERSION: u8 = 1;

/// The first byte of the canonical bytes of a transition state.
pub const TRANSITION_STATE_VERSION: u8 = 255;

/// The bytes of the commitment that stands for "no valid next state can be
/// derived from the data that is available": the Keccak-256 digest of the
/// ASCII bytes of `invalid`.
pub const INVALID_TRANSITION_HASH: [u8; 32] = [
    0xff, 0xd7, 0xdb, 0x0f, 0x9d, 0x5c, 0xde, 0xb4, 0x9c, 0x4c, 0x9e, 0xba, 0x64, 0x9d, 0x4d, 0xc6,
    0xd8, 0x52, 0xd6, 0x46, 0x71, 0xe6, 0x54, 0x88, 0xe5, 0x7f, 0x58, 0x58, 0x49, 0x92, 0xac, 0x68,
];

/// The commitment that stands for "no valid next state can be derived".
pub open spec fn spec_invalid_transition_hash() -> Hash256 {
    Hash256 { bytes: INVALID_TRANSITION_HASH }
}

/// The commitment that stands for "no valid next state can be derived".
#[verifier::when_used_as_spec(spec_invalid_transition_hash)]
pub fn invalid_transition_hash() -> (commitment: Hash256)
    ensures
        commitment == spec_invalid_transition_hash(),
{
    Hash256 { bytes: INVALID_TRANSITION_HASH }
}

/// The output root of one chain.
#[derive(Debug, Clone, Copy, PartialEq, Eq)]
pub struct OutputRootWithChain {
    /// The chain the root belongs to.
    pub chain_id: u64,
    /// The commitment to the chain's state.
    pub output_root: Hash256,
}

impl OutputRootWithChain {
    /// Pairs a chain with its output root.
    pub fn new(chain_id: u64, output_root: Hash256) -> (root: Self)
        ensures
            root == (OutputRootWithChain { chain_id, output_root }),
    {
        OutputRootWithChain { chain_id, output_root }
    }
}

/// A newly derived block that waits to be consolidated into the state.
#[derive(Debug, Clone, Copy, PartialEq, Eq)]
pub struct OptimisticBlock {
    /// The hash of the block.
    pub block_hash: Hash256,
    /// The output root after the block.
    pub output_root: Hash256,
}

impl OptimisticBlock {
    /// Pairs a block hash with the output root after the block.
    pub fn new(block_hash: Hash256, output_root: Hash256) -> (block: Self)
        ensures
            block == (OptimisticBlock { block_hash, output_root }),
    {
        OptimisticBlock { block_hash, output_root }
    }
}

/// The state of a single chain between rounds: its current output root.
#[derive(Debug, Clone, Copy, PartialEq, Eq)]
pub struct SingleChainState {
    /// The time of the state, in seconds.
    pub timestamp: u64,
    /// The chain and its current output root.
    pub root: OutputRootWithChain,
}

/// The output roots that a round starts from, in the order of the chains.
#[derive(Debug, Clone, PartialEq, Eq)]
pub struct SuperRoot {
    /// The time of the snapshot, in seconds.
    pub timestamp: u64,
    /// One output root per chain.
    pub output_roots: Vec<OutputRootWithChain>,
}

/// A round in progress.
#[derive(Debug, Clone, PartialEq, Eq)]
pub struct TransitionState {
    /// The output roots the round started from.
    pub pre_state: SuperRoot,
    /// The blocks derived so far, one per chain, in the order of the chains.
    pub pending_progress: Vec<OptimisticBlock>,
    /// The number of chains that have been handled.
    pub step: u64,
}

/// The agreed state a sub-transition starts from.
#[derive(Debug, Clone, PartialEq, Eq)]
pub enum PreState {
    /// A single chain at rest.
    SingleChainState(SingleChainState),
    /// A round in progress.
    TransitionState(TransitionState),
}

/// What a `SuperRoot` holds.
pub struct SuperRootView {
    pub timestamp: u64,
    pub output_roots: Seq<OutputRootWithChain>,
}

/// What a `TransitionState` holds.
pub struct TransitionStateView {
    pub pre_state: SuperRootView,
    pub pending_progress: Seq<OptimisticBlock>,
    pub step: u64,
}

/// What a `PreState` holds.
pub enum PreStateView {
    SingleChainState(SingleChainState),
    TransitionState(TransitionStateView),
}

impl View for SuperRoot {
    type V = SuperRootView;

    open spec fn view(&self) -> SuperRootView {
        SuperRootView { timestamp: self.timestamp, output_roots: self.output_roots@ }
    }
}

impl View for TransitionState {
    type V = TransitionStateView;

    open spec fn view(&self) -> TransitionStateView {
        TransitionStateView {
            pre_state: self.pre_state@,
            pending_progress: self.pending_progress@,
            step: self.step,
        }
    }
}

impl View for PreState {
    type V = PreStateView;

    open spec fn view(&self) -> PreStateView {
        match self {
            PreState::SingleChainState(s) => PreStateView::SingleChainState(*s),
            PreState::TransitionState(t) => PreStateView::TransitionState(t@),
        }
    }
}

/// The view of a state that may be absent.
pub open spec fn view_of(state: Option<PreState>) -> Option<PreStateView> {
    match state {
        Some(s) => Some(s@),
        None => None,
    }
}

impl SuperRootView {
    /// The canonical bytes of the snapshot: the version byte, the time in
    /// eight big-endian bytes, then chain and root of every chain in order.
    pub open spec fn encoding(self) -> Seq<u8> {
        seq![SUPER_ROOT_VERSION] + be_fixed(self.timestamp as nat, 8) + roots_bytes(
            self.output_roots,
        )
    }
}

impl TransitionStateView {
    /// The progress counter counts the pending blocks and names a chain of
    /// the snapshot, or the end of the list, and can count every chain.
    pub open spec fn well_formed(self) -> bool {
        &&& self.step == self.pending_progress.len()
        &&& self.step <= self.pre_state.output_roots.len()
        &&& self.pre_state.output_roots.len() <= u64::MAX
    }

    /// Every chain has been handled: no further block is expected.
    pub open spec fn saturated(self) -> bool {
        self.step >= self.pre_state.output_roots.len()
    }

    /// The three items of the list that the canonical bytes wrap: the
    /// snapshot as a byte string, the list of pending blocks, the counter.
    pub open spec fn payload(self) -> Seq<u8> {
        rlp_bytes(self.pre_state.encoding()) + rlp_list(blocks_rlp(self.pending_progress))
            + rlp_u64(self.step)
    }

    /// The canonical bytes of the round: the version byte, then the list.
    pub open spec fn encoding(self) -> Seq<u8> {
        seq![TRANSITION_STATE_VERSION] + rlp_list(self.payload())
    }
}

/// Chain and root of one chain: the chain in 32 big-endian bytes, then the
/// 32 bytes of the root.
pub open spec fn root_bytes(root: OutputRootWithChain) -> Seq<u8> {
    be_fixed(root.chain_id as nat, 32) + root.output_root@
}

/// Chain and root of every chain, in order.
pub open spec fn roots_bytes(roots: Seq<OutputRootWithChain>) -> Seq<u8>
    decreases roots.len(),
{
    if roots.len() == 0 {
        Seq::empty()
    } else {
        roots_bytes(roots.drop_last()) + root_bytes(roots.last())
    }
}

/// The encoding of a pending block: the list of its hash and its root.
pub open spec fn block_rlp(block: OptimisticBlock) -> Seq<u8> {
    rlp_list(rlp_bytes(block.block_hash@) + rlp_bytes(block.output_root@))
}

/// The encodings of the pending blocks, in order.
pub open spec fn blocks_rlp(blocks: Seq<OptimisticBlock>) -> Seq<u8>
    decreases blocks.len(),
{
    if blocks.len() == 0 {
        Seq::empty()
    } else {
        blocks_rlp(blocks.drop_last()) + block_rlp(blocks.last())
    }
}

/// The snapshot that holds the one chain of a state at rest.
pub open spec fn snapshot_of(state: SingleChainState) -> SuperRootView {
    SuperRootView { timestamp: state.timestamp, output_roots: seq![state.root] }
}

impl PreStateView {
    /// The time of the state.
    pub open spec fn timestamp(self) -> u64 {
        match self {
            PreStateView::SingleChainState(s) => s.timestamp,
            PreStateView::TransitionState(t) => t.pre_state.timestamp,
        }
    }

    /// The output root of the chain that is handled next: the one chain of a
    /// state at rest, the chain at the counter's place of a round in progress,
    /// none once the counter is past the list.
    pub open spec fn active_l2_output_root(self) -> Option<OutputRootWithChain> {
        match self {
            PreStateView::SingleChainState(s) => Some(s.root),
            PreStateView::TransitionState(t) => if t.step < t.pre_state.output_roots.len() {
                Some(t.pre_state.output_roots[t.step as int])
            } else {
                None
            },
        }
    }

    /// The chain that is handled next.
    pub open spec fn active_l2_chain_id(self) -> Option<u64> {
        match self.active_l2_output_root() {
            Some(root) => Some(root.chain_id),
            None => None,
        }
    }

    /// A round in progress whose chains have all been handled.
    pub open spec fn saturated(self) -> bool {
        self matches PreStateView::TransitionState(t) && t.saturated()
    }

    /// A state at rest is always well formed; a round in progress where its
    /// counter is.
    pub open spec fn well_formed(self) -> bool {
        self matches PreStateView::TransitionState(t) ==> t.well_formed()
    }

    /// The state after the step, or `None` where the step is not valid.
    ///
    /// A state at rest takes a block and becomes a round with that one block
    /// pending. A round in progress that is not saturated takes a block,
    /// appends it and counts one chain more. A saturated round takes no block
    /// and stays as it is. Everything else is invalid: a missing block where
    /// one is due, a block where none is due, and a round whose counter does
    /// not count its pending blocks or points past its chains.
    pub open spec fn transition(self, block: Option<OptimisticBlock>) -> Option<PreStateView> {
        match self {
            PreStateView::SingleChainState(s) => match block {
                Some(b) => Some(
                    PreStateView::TransitionState(
                        TransitionStateView {
                            pre_state: snapshot_of(s),
                            pending_progress: seq![b],
                            step: 1,
                        },
                    ),
                ),
                None => None,
            },
            PreStateView::TransitionState(t) => if !t.well_formed() {
                None
            } else if t.saturated() {
                match block {
                    Some(_) => None,
                    None => Some(self),
                }
            } else {
                match block {
                    Some(b) => Some(
                        PreStateView::TransitionState(
                            TransitionStateView {
                                pre_state: t.pre_state,
                                pending_progress: t.pending_progress.push(b),
                                step: (t.step + 1) as u64,
                            },
                        ),
                    ),
                    None => None,
                }
            },
        }
    }

    /// The canonical bytes of the state. A state at rest is written as the
    /// snapshot of its one chain.
    pub open spec fn encoding(self) -> Seq<u8> {
        match self {
            PreStateView::SingleChainState(s) => snapshot_of(s).encoding(),
            PreStateView::TransitionState(t) => t.encoding(),
        }
    }

    /// The commitment to the state: the digest of its canonical bytes.
    pub open spec fn commitment(self) -> Hash256 {
        keccak256_word(self.encoding())
    }
}

/// Appends chain and root of one chain.
fn push_root(root: &OutputRootWithChain, out: &mut Vec<u8>)
    ensures
        final(out)@ == old(out)@ + root_bytes(*root),
{
    push_be_fixed(root.chain_id, 32, out);
    out.extend_from_slice(root.output_root.bytes.as_slice());
    assert(out@ =~= old(out)@ + root_bytes(*root));
}

/// Appends the encoding of a pending block.
fn push_block(block: &OptimisticBlock, out: &mut Vec<u8>)
    ensures
        final(out)@ == old(out)@ + block_rlp(*block),
{
    let mut items: Vec<u8> = Vec::new();
    encode_bytes(block.block_hash.bytes.as_slice(), &mut items);
    encode_bytes(block.output_root.bytes.as_slice(), &mut items);
    assert(items@ =~= rlp_bytes(block.block_hash@) + rlp_bytes(block.output_root@));
    encode_list(items.as_slice(), out);
}

impl SuperRoot {
    /// Puts a time and the chains' output roots together.
    pub fn new(timestamp: u64, output_roots: Vec<OutputRootWithChain>) -> (snapshot: Self)
        ensures
            snapshot@ == (SuperRootView { timestamp, output_roots: output_roots@ }),
    {
        SuperRoot { timestamp, output_roots }
    }

    /// Writes the canonical bytes of the snapshot.
    pub fn encode(&self) -> (bytes: Vec<u8>)
        ensures
            bytes@ == self@.encoding(),
    {
        let mut out: Vec<u8> = Vec::new();
        out.push(SUPER_ROOT_VERSION);
        push_be_fixed(self.timestamp, 8, &mut out);
        let ghost head = out@;
        let mut i: usize = 0;
        assert(self.output_roots@.take(0) =~= Seq::empty());
        while i < self.output_roots.len()
            invariant
                i <= self.output_roots.len(),
                out@ == head + roots_bytes(self.output_roots@.take(i as int)),
            decreases self.output_roots.len() - i,
        {
            let ghost before = self.output_roots@.take(i as int);
            let ghost after = self.output_roots@.take(i + 1);
            push_root(&self.output_roots[i], &mut out);
            assert(after.drop_last() =~= before);
            assert(after.last() == self.output_roots@[i as int]);
            assert(out@ =~= head + roots_bytes(after));
            i = i + 1;
        }
        assert(self.output_roots@.take(i as int) =~= self.output_roots@);
        assert(out@ =~= self@.encoding());
        out
    }
}

impl TransitionState {
    /// Puts the parts of a round together.
    pub fn new(pre_state: SuperRoot, pending_progress: Vec<OptimisticBlock>, step: u64) -> (state:
        Self)
        ensures
            state@ == (TransitionStateView {
                pre_state: pre_state@,
                pending_progress: pending_progress@,
                step,
            }),
    {
        TransitionState { pre_state, pending_progress, step }
    }

    /// Writes the canonical bytes of the round.
    pub fn encode(&self) -> (bytes: Vec<u8>)
        ensures
            bytes@ == self@.encoding(),
    {
        let snapshot = self.pre_state.encode();
        let mut payload: Vec<u8> = Vec::new();
        encode_bytes(snapshot.as_slice(), &mut payload);

        let mut blocks: Vec<u8> = Vec::new();
        let mut i: usize = 0;
        assert(self.pending_progress@.take(0) =~= Seq::empty());
        while i < self.pending_progress.len()
            invariant
                i <= self.pending_progress.len(),
                blocks@ == blocks_rlp(self.pending_progress@.take(i as int)),
            decreases self.pending_progress.len() - i,
        {
            let ghost before = self.pending_progress@.take(i as int);
            let ghost after = self.pending_progress@.take(i + 1);
            push_block(&self.pending_progress[i], &mut blocks);
            assert(after.drop_last() =~= before);
            assert(after.last() == self.pending_progress@[i as int]);
            i = i + 1;
        }
        assert(self.pending_progress@.take(i as int) =~= self.pending_progress@);
        encode_list(blocks.as_slice(), &mut payload);
        encode_u64(self.step, &mut payload);
        assert(payload@ =~= self@.payload());

        let mut out: Vec<u8> = Vec::new();
        out.push(TRANSITION_STATE_VERSION);
        encode_list(payload.as_slice(), &mut out);
        assert(out@ =~= self@.encoding());
        out
    }
}

impl PreState {
    /// The time of the state.
    pub fn timestamp(&self) -> (time: u64)
        ensures
            time == self@.timestamp(),
    {
        match self {
            PreState::SingleChainState(s) => s.timestamp,
            PreState::TransitionState(t) => t.pre_state.timestamp,
        }
    }

    /// The output root of the chain that is handled next, if there is one.
    pub fn active_l2_output_root(&self) -> (root: Option<OutputRootWithChain>)
        ensures
            root == self@.active_l2_output_root(),
    {
        match self {
            PreState::SingleChainState(s) => Some(s.root),
            PreState::TransitionState(t) => {
                if t.step < t.pre_state.output_roots.len() as u64 {
                    Some(t.pre_state.output_roots[t.step as usize])
                } else {
                    None
                }
            },
        }
    }

    /// The chain that is handled next, if there is one.
    pub fn active_l2_chain_id(&self) -> (chain_id: Option<u64>)
        ensures
            chain_id == self@.active_l2_chain_id(),
    {
        match self.active_l2_output_root() {
            Some(root) => Some(root.chain_id),
            None => None,
        }
    }

    /// Whether the state is a round whose chains have all been handled.
    pub fn is_saturated(&self) -> (saturated: bool)
        ensures
            saturated == self@.saturated(),
    {
        match self {
            PreState::SingleChainState(_) => false,
            PreState::TransitionState(t) => t.step >= t.pre_state.output_roots.len() as u64,
        }
    }

    /// Applies one step to the state: `Some` of the state after it where the
    /// step is valid, `None` where it is not.
    pub fn transition(self, optimistic_block: Option<OptimisticBlock>) -> (post: Option<PreState>)
        ensures
            view_of(post) == self@.transition(optimistic_block),
    {
        match self {
            PreState::SingleChainState(s) => match optimistic_block {
                Some(block) => {
                    let mut output_roots: Vec<OutputRootWithChain> = Vec::new();
                    output_roots.push(s.root);
                    let mut pending_progress: Vec<OptimisticBlock> = Vec::new();
                    pending_progress.push(block);
                    let state = TransitionState {
                        pre_state: SuperRoot { timestamp: s.timestamp, output_roots },
                        pending_progress,
                        step: 1,
                    };
                    assert(state.pre_state@.output_roots =~= seq![s.root]);
                    assert(state@.pending_progress =~= seq![block]);
                    Some(PreState::TransitionState(state))
                },
                None => None,
            },
            PreState::TransitionState(t) => {
                let chains = t.pre_state.output_roots.len();
                let pending = t.pending_progress.len();
                if t.step != pending as u64 || pending > chains {
                    None
                } else if pending == chains {
                    match optimistic_block {
                        Some(_) => None,
                        None => Some(PreState::TransitionState(t)),
                    }
                } else {
                    match optimistic_block {
                        Some(block) => {
                            let TransitionState { pre_state, pending_progress, step } = t;
                            let mut pending_progress = pending_progress;
                            pending_progress.push(block);
                            Some(
                                PreState::TransitionState(
                                    TransitionState { pre_state, pending_progress, step: step + 1 },
                                ),
                            )
                        },
                        None => None,
                    }
                }
            },
        }
    }

    /// Writes the canonical bytes of the state.
    pub fn encode(&self) -> (bytes: Vec<u8>)
        ensures
            bytes@ == self@.encoding(),
    {
        match self {
            PreState::SingleChainState(s) => {
                let mut out: Vec<u8> = Vec::new();
                out.push(SUPER_ROOT_VERSION);
                push_be_fixed(s.timestamp, 8, &mut out);
                push_root(&s.root, &mut out);
                assert(roots_bytes(seq![s.root]) =~= root_bytes(s.root)) by {
                    let roots = seq![s.root];
                    assert(roots.drop_last() =~= Seq::empty());
                    assert(roots.last() == s.root);
                    assert(roots_bytes(roots.drop_last()) =~= Seq::empty());
                }
                assert(out@ =~= self@.encoding());
                out
            },
            PreState::TransitionState(t) => t.encode(),
        }
    }

    /// Computes the commitment to the state.
    pub fn hash(&self) -> (commitment: Hash256)
        ensures
            commitment == self@.commitment(),
    {
        let bytes = self.encode();
        hash_bytes(bytes.as_slice())
    }
}

} // verus!
