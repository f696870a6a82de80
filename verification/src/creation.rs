//! Venue discovery from confirmed transactions.

use vstd::prelude::*;

use crate::pubkey::Pubkey;
use crate::sdk::{DISC_INIT_STRATEGY, QUAY_PROGRAM_ID};
use crate::types::{ParsedInstruction, PoolCreation, PoolCreationView, PoolProtocol};

verus! {

/// The pool that an instruction creates, if it is a well-formed
/// `init_strategy` of the Quay program: the strategy account, first in the
/// account list, with the base mint in position 5 and the quote mint in 6.
pub open spec fn creation_of(ix: ParsedInstruction) -> Option<PoolCreationView> {
    if ix.program_id == (Pubkey { bytes: QUAY_PROGRAM_ID }) && ix.data@.len() > 0 && ix.data@[0]
        == DISC_INIT_STRATEGY && ix.accounts@.len() > 6 {
        Some(
            PoolCreationView {
                protocol: PoolProtocol::Quay,
                pool: ix.accounts@[0],
                mints: seq![ix.accounts@[5], ix.accounts@[6]],
            },
        )
    } else {
        None
    }
}

/// The pools that a list of instructions creates, in order.
pub open spec fn creations_of(instructions: Seq<ParsedInstruction>) -> Seq<PoolCreationView>
    decreases instructions.len(),
{
    if instructions.len() == 0 {
        Seq::empty()
    } else {
        let before = creations_of(instructions.drop_last());
        match creation_of(instructions.last()) {
            Some(pool) => before.push(pool),
            None => before,
        }
    }
}

/// The models of a list of pools.
pub open spec fn pool_views(pools: Seq<PoolCreation>) -> Seq<PoolCreationView> {
    pools.map_values(|pool: PoolCreation| pool@)
}

/// Discovers Quay strategies from the `init_strategy` instructions of a
/// confirmed transaction. The pair is read off the instruction, with no
/// account load; other and malformed instructions are skipped.
///
/// A fresh strategy is born frozen and without routing flags: it is found
/// here, and not routed until its market maker opts in.
#[must_use]
pub fn parse_pool_creations(instructions: &[ParsedInstruction]) -> (pools: Vec<PoolCreation>)
    ensures
        pool_views(pools@) == creations_of(instructions@),
        forall|k: int|
            0 <= k < pools@.len() ==> {
                &&& (#[trigger] pools@[k]).protocol == PoolProtocol::Quay
                &&& pools@[k].mints@.len() == 2
                &&& exists|i: int|
                    {
                        &&& 0 <= i < instructions@.len()
                        &&& (#[trigger] instructions@[i]).program_id.bytes == QUAY_PROGRAM_ID
                        &&& instructions@[i].data@.len() > 0
                        &&& instructions@[i].data@[0] == 0x10
                        &&& instructions@[i].accounts@.len() >= 7
                        &&& pools@[k].pool == instructions@[i].accounts@[0]
                        &&& pools@[k].mints@[0] == instructions@[i].accounts@[5]
                        &&& pools@[k].mints@[1] == instructions@[i].accounts@[6]
                    }
            },
{
    let mut pools: Vec<PoolCreation> = Vec::new();
    let mut i: usize = 0;
    assert(pool_views(pools@) =~= creations_of(instructions@.take(0)));
    while i < instructions.len()
        invariant
            i <= instructions@.len(),
            pool_views(pools@) == creations_of(instructions@.take(i as int)),
        decreases instructions@.len() - i,
    {
        let ix = &instructions[i];
        let ghost before = pools@;
        assert(instructions@.take(i + 1).drop_last() =~= instructions@.take(i as int));
        if ix.program_id == (Pubkey { bytes: QUAY_PROGRAM_ID }) && ix.data.len() > 0 && ix.data[0]
            == DISC_INIT_STRATEGY && ix.accounts.len() > 6 {
            let pool = PoolCreation {
                protocol: PoolProtocol::Quay,
                pool: ix.accounts[0],
                mints: vec![ix.accounts[5], ix.accounts[6]],
            };
            assert(pool.mints@ =~= seq![ix.accounts@[5], ix.accounts@[6]]);
            pools.push(pool);
            assert(pool_views(pools@) =~= pool_views(before).push(pool@));
        }
        i = i + 1;
    }
    assert(instructions@.take(i as int) =~= instructions@);
    proof {
        assert forall|k: int| 0 <= k < pools@.len() implies {
            &&& (#[trigger] pools@[k]).protocol == PoolProtocol::Quay
            &&& pools@[k].mints@.len() == 2
            &&& exists|i: int|
                {
                    &&& 0 <= i < instructions@.len()
                    &&& (#[trigger] instructions@[i]).program_id.bytes == QUAY_PROGRAM_ID
                    &&& instructions@[i].data@.len() > 0
                    &&& instructions@[i].data@[0] == 0x10
                    &&& instructions@[i].accounts@.len() >= 7
                    &&& pools@[k].pool == instructions@[i].accounts@[0]
                    &&& pools@[k].mints@[0] == instructions@[i].accounts@[5]
                    &&& pools@[k].mints@[1] == instructions@[i].accounts@[6]
                }
        } by {
            law_pools_come_from_instructions(instructions@, k);
            assert(pool_views(pools@)[k] == pools@[k]@);
        }
    }
    pools
}

/// Discovery works instruction by instruction: the pools of two lists of
/// instructions, one after the other, are the pools of the first followed by
/// those of the second.
pub proof fn law_discovery_concatenates(a: Seq<ParsedInstruction>, b: Seq<ParsedInstruction>)
    ensures
        creations_of(a + b) == creations_of(a) + creations_of(b),
    decreases b.len(),
{
    if b.len() == 0 {
        assert(a + b =~= a);
        assert(creations_of(a) + creations_of(b) =~= creations_of(a));
    } else {
        law_discovery_concatenates(a, b.drop_last());
        assert((a + b).drop_last() =~= a + b.drop_last());
        assert(creations_of(a + b) =~= creations_of(a) + creations_of(b));
    }
}

/// Every discovered pool comes from a well-formed `init_strategy` of the Quay
/// program in the list, and every such instruction yields its pool.
pub proof fn law_discovery_is_exact(instructions: Seq<ParsedInstruction>, pool: PoolCreationView)
    ensures
        creations_of(instructions).contains(pool) <==> exists|i: int|
            0 <= i < instructions.len() && creation_of(#[trigger] instructions[i]) == Some(pool),
    decreases instructions.len(),
{
    if instructions.len() > 0 {
        let rest = instructions.drop_last();
        law_discovery_is_exact(rest, pool);
        let before = creations_of(rest);
        let all = creations_of(instructions);
        let last = instructions.len() - 1;
        if before.contains(pool) {
            let k = before.index_of(pool);
            assert(all[k] == pool);
            let i = choose|i: int|
                0 <= i < rest.len() && creation_of(#[trigger] rest[i]) == Some(pool);
            assert(creation_of(instructions[i]) == Some(pool));
        }
        if creation_of(instructions[last]) == Some(pool) {
            assert(all[all.len() - 1] == pool);
        }
        if all.contains(pool) && creation_of(instructions[last]) != Some(pool) {
            let k = all.index_of(pool);
            assert(before[k] == pool);
        }
        if exists|i: int|
            0 <= i < instructions.len() && creation_of(#[trigger] instructions[i]) == Some(pool) {
            let i = choose|i: int|
                0 <= i < instructions.len() && creation_of(#[trigger] instructions[i]) == Some(
                    pool,
                );
            if i < last {
                assert(creation_of(rest[i]) == Some(pool));
            }
        }
    }
}

/// The models of a list of pools are theirs, one for one and in order.
pub proof fn law_pool_views(pools: Seq<PoolCreation>)
    ensures
        pool_views(pools).len() == pools.len(),
        forall|k: int|
            0 <= k < pools.len() ==> {
                &&& (#[trigger] pool_views(pools)[k]).protocol == pools[k].protocol
                &&& pool_views(pools)[k].pool == pools[k].pool
                &&& pool_views(pools)[k].mints == pools[k].mints@
            },
{
}

/// An `init_strategy` of the Quay program creates one pool, the first account
/// of its list, on the pair in positions 5 and 6. Anything else, an
/// `init_strategy` with fewer than seven accounts among it, creates none.
pub proof fn law_one_instruction_creates(ix: ParsedInstruction)
    ensures
        ({
            let pools = creations_of(seq![ix]);
            let well_formed = ix.program_id.bytes == QUAY_PROGRAM_ID && ix.data@.len() > 0
                && ix.data@[0] == 0x10 && ix.accounts@.len() >= 7;
            &&& !well_formed ==> pools.len() == 0
            &&& well_formed ==> {
                &&& pools.len() == 1
                &&& pools[0].protocol == PoolProtocol::Quay
                &&& pools[0].pool == ix.accounts@[0]
                &&& pools[0].mints.len() == 2
                &&& pools[0].mints[0] == ix.accounts@[5]
                &&& pools[0].mints[1] == ix.accounts@[6]
            }
        }),
{
    assert(seq![ix].drop_last() =~= Seq::empty());
    assert(creations_of(Seq::<ParsedInstruction>::empty()).len() == 0);
    assert(creations_of(seq![ix]) =~= match creation_of(ix) {
        Some(pool) => seq![pool],
        None => Seq::empty(),
    });
}

/// Accounts and data that follow those of a well-formed `init_strategy` do
/// not change the pool that it creates.
pub proof fn law_trailing_accounts_change_nothing(short: ParsedInstruction, long: ParsedInstruction)
    requires
        short.program_id == long.program_id,
        short.data@.len() > 0,
        short.accounts@.len() >= 7,
        short.data@.is_prefix_of(long.data@),
        short.accounts@.is_prefix_of(long.accounts@),
    ensures
        creations_of(seq![short]) == creations_of(seq![long]),
{
    law_one_instruction_creates(short);
    law_one_instruction_creates(long);
    assert(long.data@[0] == short.data@[0]);
    assert(forall|i: int|
        0 <= i < short.accounts@.len() ==> short.accounts@[i] == #[trigger] long.accounts@[i]);
    let a = creations_of(seq![short]);
    let b = creations_of(seq![long]);
    if a.len() == 1 {
        assert(a[0].mints =~= b[0].mints);
    }
    assert(a =~= b);
}

/// Every discovered pool is the first account of an `init_strategy` of the
/// Quay program in the list, on the mints in positions 5 and 6 of the same
/// instruction.
pub proof fn law_pools_come_from_instructions(instructions: Seq<ParsedInstruction>, k: int)
    requires
        0 <= k < creations_of(instructions).len(),
    ensures
        ({
            let pool = creations_of(instructions)[k];
            &&& pool.protocol == PoolProtocol::Quay
            &&& pool.mints.len() == 2
            &&& exists|i: int|
                {
                    &&& 0 <= i < instructions.len()
                    &&& (#[trigger] instructions[i]).program_id.bytes == QUAY_PROGRAM_ID
                    &&& instructions[i].data@.len() > 0
                    &&& instructions[i].data@[0] == 0x10
                    &&& instructions[i].accounts@.len() >= 7
                    &&& pool.pool == instructions[i].accounts@[0]
                    &&& pool.mints[0] == instructions[i].accounts@[5]
                    &&& pool.mints[1] == instructions[i].accounts@[6]
                }
        }),
{
    let pool = creations_of(instructions)[k];
    assert(creations_of(instructions).contains(pool));
    law_discovery_is_exact(instructions, pool);
    let i = choose|i: int|
        0 <= i < instructions.len() && creation_of(#[trigger] instructions[i]) == Some(pool);
    assert(instructions[i].accounts@.len() >= 7);
}

/// Every `init_strategy` of the Quay program in the list is discovered.
pub proof fn law_instructions_yield_pools(instructions: Seq<ParsedInstruction>, i: int)
    requires
        0 <= i < instructions.len(),
        instructions[i].program_id.bytes == QUAY_PROGRAM_ID,
        instructions[i].data@.len() > 0,
        instructions[i].data@[0] == 0x10,
        instructions[i].accounts@.len() >= 7,
    ensures
        exists|k: int|
            {
                &&& 0 <= k < creations_of(instructions).len()
                &&& (#[trigger] creations_of(instructions)[k]).pool == instructions[i].accounts@[0]
                &&& creations_of(instructions)[k].mints.len() == 2
                &&& creations_of(instructions)[k].mints[0] == instructions[i].accounts@[5]
                &&& creations_of(instructions)[k].mints[1] == instructions[i].accounts@[6]
            },
{
    let ix = instructions[i];
    assert(ix.program_id == (Pubkey { bytes: QUAY_PROGRAM_ID }));
    let pool = creation_of(ix)->0;
    assert(creation_of(instructions[i]) == Some(pool));
    law_discovery_is_exact(instructions, pool);
    let k = creations_of(instructions).index_of(pool);
    assert(creations_of(instructions)[k] == pool);
}

} // verus!
