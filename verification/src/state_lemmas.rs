//! What holds of the transition-state model: the step keeps states well
//! formed and never touches the output roots a round started from, a
//! saturated round is a fixed point of the empty step, and the canonical
//! bytes tell every two states apart.

use crate::primitives::{keccak256_word, Hash256};
use crate::rlp::{be_bytes, be_fixed, lemma_be_fixed_len, rlp_bytes, rlp_header, rlp_list, rlp_u64};
use crate::rlp_lemmas::{
    lemma_be_fixed_u64_injective, lemma_bytes_split, lemma_concat_split, lemma_header_split,
    lemma_rlp_u64_injective,
};
use crate::state::{
    block_rlp, blocks_rlp, root_bytes, roots_bytes, snapshot_of, OptimisticBlock,
    OutputRootWithChain, PreStateView, SuperRootView, TransitionStateView, SUPER_ROOT_VERSION,
    TRANSITION_STATE_VERSION,
};
use vstd::prelude::*;

verus! {

/// Two different byte strings that hash to the same word.
pub open spec fn keccak256_collision(a: Seq<u8>, b: Seq<u8>) -> bool {
    a != b && keccak256_word(a) == keccak256_word(b)
}

/// A valid step leads from a well-formed state to a well-formed state.
pub proof fn lemma_transition_well_formed(state: PreStateView, block: Option<OptimisticBlock>)
    requires
        state.transition(block) is Some,
    ensures
        state.well_formed(),
        state.transition(block).unwrap().well_formed(),
{
}

/// The step is valid exactly where a block is given to a state that takes
/// one, or none to a saturated round.
pub proof fn lemma_transition_valid(state: PreStateView, block: Option<OptimisticBlock>)
    ensures
        state.transition(block) is Some <==> state.well_formed() && (block is Some
            <==> !state.saturated()),
{
}

/// An append keeps the time and the output roots that the round started
/// from, keeps the blocks that were pending, and counts one chain more.
pub proof fn lemma_append_extends(state: PreStateView, block: OptimisticBlock)
    requires
        state.transition(Some(block)) is Some,
    ensures
        ({
            let after = state.transition(Some(block)).unwrap();
            &&& after matches PreStateView::TransitionState(round)
            &&& round.pre_state.timestamp == state.timestamp()
            &&& round.pending_progress.last() == block
            &&& match state {
                PreStateView::SingleChainState(s) => {
                    &&& round.pre_state.output_roots == seq![s.root]
                    &&& round.pending_progress.len() == 1
                    &&& round.step == 1
                },
                PreStateView::TransitionState(before) => {
                    &&& round.pre_state == before.pre_state
                    &&& round.pending_progress.drop_last() == before.pending_progress
                    &&& round.step == before.step + 1
                },
            }
        }),
{
    if let PreStateView::TransitionState(before) = state {
        assert(before.pending_progress.push(block).drop_last() =~= before.pending_progress);
    }
}

/// A saturated round stays as it is under the empty step, so applying the
/// empty step again gives the same state and the same commitment.
pub proof fn lemma_noop_idempotent(state: PreStateView)
    requires
        state.saturated(),
        state.transition(None) is Some,
    ensures
        state.transition(None) == Some(state),
        state.transition(None).unwrap().transition(None) == state.transition(None),
        state.transition(None).unwrap().transition(None).unwrap().commitment()
            == state.transition(None).unwrap().commitment(),
{
}

/// The encoding of a pending block, byte by byte: the header of a list of 66
/// bytes, then hash and root, each behind the header of a 32-byte string.
pub proof fn lemma_block_rlp_bytes(block: OptimisticBlock)
    ensures
        block_rlp(block) == seq![0xf8u8, 0x42u8, 0xa0u8] + block.block_hash@ + seq![0xa0u8]
            + block.output_root@,
        block_rlp(block).len() == 68,
{
    let items = rlp_bytes(block.block_hash@) + rlp_bytes(block.output_root@);
    assert(rlp_bytes(block.block_hash@) =~= seq![0xa0u8] + block.block_hash@);
    assert(rlp_bytes(block.output_root@) =~= seq![0xa0u8] + block.output_root@);
    assert(items.len() == 66);
    assert(be_bytes(66) =~= seq![0x42u8]) by {
        assert(be_bytes(0) =~= Seq::<u8>::empty());
        assert(66nat / 256 == 0);
    }
    assert(rlp_header(true, 66) =~= seq![0xf8u8, 0x42u8]);
    assert(block_rlp(block) =~= seq![0xf8u8, 0x42u8, 0xa0u8] + block.block_hash@ + seq![0xa0u8]
        + block.output_root@);
}

/// Blocks with the same encoding are the same block.
pub proof fn lemma_block_rlp_injective(first: OptimisticBlock, second: OptimisticBlock)
    requires
        block_rlp(first) == block_rlp(second),
    ensures
        first == second,
{
    lemma_block_rlp_bytes(first);
    lemma_block_rlp_bytes(second);
    let a = block_rlp(first);
    let b = block_rlp(second);
    assert(first.block_hash@ =~= a.subrange(3, 35));
    assert(second.block_hash@ =~= b.subrange(3, 35));
    assert(first.output_root@ =~= a.subrange(36, 68));
    assert(second.output_root@ =~= b.subrange(36, 68));
    Hash256::lemma_view_injective(first.block_hash, second.block_hash);
    Hash256::lemma_view_injective(first.output_root, second.output_root);
}

/// The encodings of a list of pending blocks take 68 bytes per block.
pub proof fn lemma_blocks_rlp_len(blocks: Seq<OptimisticBlock>)
    ensures
        blocks_rlp(blocks).len() == 68 * blocks.len(),
    decreases blocks.len(),
{
    if blocks.len() > 0 {
        lemma_blocks_rlp_len(blocks.drop_last());
        lemma_block_rlp_bytes(blocks.last());
    }
}

/// Two rounds that differ only in the block appended last have different
/// canonical bytes.
pub proof fn lemma_last_block_injective(
    round: TransitionStateView,
    first: OptimisticBlock,
    second: OptimisticBlock,
)
    requires
        first != second,
    ensures
        (TransitionStateView {
            pending_progress: round.pending_progress.push(first),
            ..round
        }).encoding() != (TransitionStateView {
            pending_progress: round.pending_progress.push(second),
            ..round
        }).encoding(),
{
    let q = round.pending_progress;
    let t1 = TransitionStateView { pending_progress: q.push(first), ..round };
    let t2 = TransitionStateView { pending_progress: q.push(second), ..round };
    let head = rlp_bytes(round.pre_state.encoding());
    let tail = crate::rlp::rlp_u64(round.step);
    assert(q.push(first).drop_last() =~= q);
    assert(q.push(second).drop_last() =~= q);
    let b1 = blocks_rlp(q.push(first));
    let b2 = blocks_rlp(q.push(second));
    assert(b1 == blocks_rlp(q) + block_rlp(first));
    assert(b2 == blocks_rlp(q) + block_rlp(second));
    lemma_block_rlp_bytes(first);
    lemma_block_rlp_bytes(second);
    assert(b1.len() == b2.len());
    let list_head = rlp_header(true, b1.len());
    assert(rlp_list(b1) == list_head + b1);
    assert(rlp_list(b2) == list_head + b2);
    assert(t1.payload().len() == t2.payload().len());
    let outer = rlp_header(true, t1.payload().len());
    let before = seq![crate::state::TRANSITION_STATE_VERSION] + outer + head + list_head
        + blocks_rlp(q);
    assert(t1.encoding() =~= before + block_rlp(first) + tail);
    assert(t2.encoding() =~= before + block_rlp(second) + tail);
    if t1.encoding() == t2.encoding() {
        let at = before.len() as int;
        assert(block_rlp(first) =~= t1.encoding().subrange(at, at + 68));
        assert(block_rlp(second) =~= t2.encoding().subrange(at, at + 68));
        lemma_block_rlp_injective(first, second);
    }
}

/// Appending different blocks to one state gives states with different
/// canonical bytes.
pub proof fn lemma_append_injective(
    state: PreStateView,
    first: OptimisticBlock,
    second: OptimisticBlock,
)
    requires
        state.transition(Some(first)) is Some,
        first != second,
    ensures
        state.transition(Some(second)) is Some,
        state.transition(Some(first)).unwrap().encoding() != state.transition(
            Some(second),
        ).unwrap().encoding(),
{
    match state {
        PreStateView::SingleChainState(s) => {
            let round = TransitionStateView {
                pre_state: crate::state::snapshot_of(s),
                pending_progress: Seq::empty(),
                step: 1,
            };
            assert(Seq::<OptimisticBlock>::empty().push(first) =~= seq![first]);
            assert(Seq::<OptimisticBlock>::empty().push(second) =~= seq![second]);
            lemma_last_block_injective(round, first, second);
        },
        PreStateView::TransitionState(t) => {
            let round = TransitionStateView { step: (t.step + 1) as u64, ..t };
            lemma_last_block_injective(round, first, second);
        },
    }
}

/// Appending different blocks to one state gives different commitments,
/// unless the canonical bytes of the two states are a collision of the hash
/// function.
pub proof fn lemma_append_commitments(
    state: PreStateView,
    first: OptimisticBlock,
    second: OptimisticBlock,
)
    requires
        state.transition(Some(first)) is Some,
        first != second,
    ensures
        state.transition(Some(second)) is Some,
        state.transition(Some(first)).unwrap().commitment() != state.transition(
            Some(second),
        ).unwrap().commitment() || keccak256_collision(
            state.transition(Some(first)).unwrap().encoding(),
            state.transition(Some(second)).unwrap().encoding(),
        ),
{
    lemma_append_injective(state, first, second);
}

/// Chain and root of one chain take 64 bytes, and tell chains and roots
/// apart.
pub proof fn lemma_root_bytes_injective(first: OutputRootWithChain, second: OutputRootWithChain)
    ensures
        root_bytes(first).len() == 64,
        root_bytes(first) == root_bytes(second) ==> first == second,
{
    lemma_be_fixed_len(first.chain_id as nat, 32);
    lemma_be_fixed_len(second.chain_id as nat, 32);
    if root_bytes(first) == root_bytes(second) {
        lemma_concat_split(
            be_fixed(first.chain_id as nat, 32),
            first.output_root@,
            be_fixed(second.chain_id as nat, 32),
            second.output_root@,
        );
        lemma_be_fixed_u64_injective(first.chain_id, second.chain_id, 32);
        Hash256::lemma_view_injective(first.output_root, second.output_root);
    }
}

/// Chains and roots take 64 bytes per chain.
pub proof fn lemma_roots_bytes_len(roots: Seq<OutputRootWithChain>)
    ensures
        roots_bytes(roots).len() == 64 * roots.len(),
    decreases roots.len(),
{
    if roots.len() > 0 {
        lemma_roots_bytes_len(roots.drop_last());
        lemma_root_bytes_injective(roots.last(), roots.last());
    }
}

/// Lists of chains with the same bytes are the same list.
pub proof fn lemma_roots_bytes_injective(
    first: Seq<OutputRootWithChain>,
    second: Seq<OutputRootWithChain>,
)
    requires
        roots_bytes(first) == roots_bytes(second),
    ensures
        first == second,
    decreases first.len(),
{
    lemma_roots_bytes_len(first);
    lemma_roots_bytes_len(second);
    assert(first.len() == second.len());
    if first.len() > 0 {
        lemma_roots_bytes_len(first.drop_last());
        lemma_roots_bytes_len(second.drop_last());
        lemma_concat_split(
            roots_bytes(first.drop_last()),
            root_bytes(first.last()),
            roots_bytes(second.drop_last()),
            root_bytes(second.last()),
        );
        lemma_root_bytes_injective(first.last(), second.last());
        lemma_roots_bytes_injective(first.drop_last(), second.drop_last());
        assert(first =~= first.drop_last().push(first.last()));
        assert(second =~= second.drop_last().push(second.last()));
    } else {
        assert(first =~= second);
    }
}

/// Lists of pending blocks with the same encodings are the same list.
pub proof fn lemma_blocks_rlp_injective(first: Seq<OptimisticBlock>, second: Seq<OptimisticBlock>)
    requires
        blocks_rlp(first) == blocks_rlp(second),
    ensures
        first == second,
    decreases first.len(),
{
    lemma_blocks_rlp_len(first);
    lemma_blocks_rlp_len(second);
    assert(first.len() == second.len());
    if first.len() > 0 {
        lemma_blocks_rlp_len(first.drop_last());
        lemma_blocks_rlp_len(second.drop_last());
        lemma_block_rlp_bytes(first.last());
        lemma_block_rlp_bytes(second.last());
        lemma_concat_split(
            blocks_rlp(first.drop_last()),
            block_rlp(first.last()),
            blocks_rlp(second.drop_last()),
            block_rlp(second.last()),
        );
        lemma_block_rlp_injective(first.last(), second.last());
        lemma_blocks_rlp_injective(first.drop_last(), second.drop_last());
        assert(first =~= first.drop_last().push(first.last()));
        assert(second =~= second.drop_last().push(second.last()));
    } else {
        assert(first =~= second);
    }
}

/// The canonical bytes of a snapshot take nine bytes and 64 per chain, and
/// snapshots with the same canonical bytes are the same snapshot.
pub proof fn lemma_snapshot_injective(first: SuperRootView, second: SuperRootView)
    ensures
        first.encoding().len() == 9 + 64 * first.output_roots.len(),
        first.encoding() == second.encoding() ==> first == second,
{
    lemma_be_fixed_len(first.timestamp as nat, 8);
    lemma_be_fixed_len(second.timestamp as nat, 8);
    lemma_roots_bytes_len(first.output_roots);
    if first.encoding() == second.encoding() {
        let head1 = seq![SUPER_ROOT_VERSION] + be_fixed(first.timestamp as nat, 8);
        let head2 = seq![SUPER_ROOT_VERSION] + be_fixed(second.timestamp as nat, 8);
        lemma_concat_split(
            head1,
            roots_bytes(first.output_roots),
            head2,
            roots_bytes(second.output_roots),
        );
        lemma_concat_split(
            seq![SUPER_ROOT_VERSION],
            be_fixed(first.timestamp as nat, 8),
            seq![SUPER_ROOT_VERSION],
            be_fixed(second.timestamp as nat, 8),
        );
        lemma_be_fixed_u64_injective(first.timestamp, second.timestamp, 8);
        lemma_roots_bytes_injective(first.output_roots, second.output_roots);
    }
}

/// Rounds with the same canonical bytes are the same round, as long as the
/// bytes are fewer than 2^64.
pub proof fn lemma_round_injective(first: TransitionStateView, second: TransitionStateView)
    requires
        first.encoding() == second.encoding(),
        first.encoding().len() <= u64::MAX,
    ensures
        first == second,
{
    let version = seq![TRANSITION_STATE_VERSION];
    lemma_concat_split(version, rlp_list(first.payload()), version, rlp_list(second.payload()));
    lemma_header_split(
        true,
        first.payload().len(),
        second.payload().len(),
        first.payload(),
        second.payload(),
    );

    let snapshot1 = first.pre_state.encoding();
    let snapshot2 = second.pre_state.encoding();
    let blocks1 = blocks_rlp(first.pending_progress);
    let blocks2 = blocks_rlp(second.pending_progress);
    let step1 = rlp_u64(first.step);
    let step2 = rlp_u64(second.step);
    lemma_snapshot_injective(first.pre_state, second.pre_state);
    lemma_snapshot_injective(second.pre_state, first.pre_state);
    assert(first.payload() =~= rlp_bytes(snapshot1) + (rlp_list(blocks1) + step1));
    assert(second.payload() =~= rlp_bytes(snapshot2) + (rlp_list(blocks2) + step2));
    lemma_bytes_split(snapshot1, snapshot2, rlp_list(blocks1) + step1, rlp_list(blocks2) + step2);

    assert(rlp_list(blocks1) + step1 =~= rlp_header(true, blocks1.len()) + (blocks1 + step1));
    assert(rlp_list(blocks2) + step2 =~= rlp_header(true, blocks2.len()) + (blocks2 + step2));
    lemma_header_split(true, blocks1.len(), blocks2.len(), blocks1 + step1, blocks2 + step2);
    lemma_concat_split(blocks1, step1, blocks2, step2);

    lemma_blocks_rlp_injective(first.pending_progress, second.pending_progress);
    lemma_rlp_u64_injective(first.step, second.step);
}

/// States with the same canonical bytes are the same state, as long as the
/// bytes are fewer than 2^64: the commitment's preimage tells every two
/// states apart, whatever their chains, their order, their pending blocks
/// and their counters.
pub proof fn lemma_encoding_injective(first: PreStateView, second: PreStateView)
    requires
        first.encoding() == second.encoding(),
        first.encoding().len() <= u64::MAX,
    ensures
        first == second,
{
    match (first, second) {
        (PreStateView::SingleChainState(a), PreStateView::SingleChainState(b)) => {
            lemma_snapshot_injective(snapshot_of(a), snapshot_of(b));
            assert(snapshot_of(a).output_roots[0] == snapshot_of(b).output_roots[0]);
        },
        (PreStateView::TransitionState(a), PreStateView::TransitionState(b)) => {
            lemma_round_injective(a, b);
        },
        (PreStateView::SingleChainState(a), PreStateView::TransitionState(b)) => {
            assert(first.encoding()[0] == SUPER_ROOT_VERSION);
            assert(second.encoding()[0] == TRANSITION_STATE_VERSION);
        },
        (PreStateView::TransitionState(a), PreStateView::SingleChainState(b)) => {
            assert(first.encoding()[0] == TRANSITION_STATE_VERSION);
            assert(second.encoding()[0] == SUPER_ROOT_VERSION);
        },
    }
}

/// Different states have different commitments, unless their canonical
/// bytes are a collision of the hash function.
pub proof fn lemma_commitments(first: PreStateView, second: PreStateView)
    requires
        first != second,
        first.encoding().len() <= u64::MAX,
    ensures
        first.commitment() != second.commitment() || keccak256_collision(
            first.encoding(),
            second.encoding(),
        ),
{
    if first.encoding() == second.encoding() {
        lemma_encoding_injective(first, second);
    }
}

} // verus!
