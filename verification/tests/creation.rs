use quay_sdk::consts;
use quay_venue::parse_pool_creations;
use quay_venue::sdk::{DISC_INIT_STRATEGY, QUAY_PROGRAM_ID};
use quay_venue::types::{ParsedInstruction, PoolProtocol};
use quay_venue::Pubkey;

fn unique() -> Pubkey {
    Pubkey { bytes: solana_pubkey::Pubkey::new_unique().to_bytes() }
}

fn quay_program() -> Pubkey {
    Pubkey { bytes: QUAY_PROGRAM_ID }
}

/// An `init_strategy` whose accounts are all different.
fn init_strategy(accounts: usize) -> ParsedInstruction {
    ParsedInstruction {
        program_id: quay_program(),
        accounts: (0..accounts).map(|_| unique()).collect(),
        data: vec![DISC_INIT_STRATEGY, 0, 0],
    }
}

#[test]
fn parse_pool_creations_reads_pair_from_init_strategy() {
    let strategy = unique();
    let base = unique();
    let quote = unique();
    let filler = unique();

    // init_strategy accounts: [strategy, mm, cfg, owner, system, base, quote].
    let init = ParsedInstruction {
        program_id: quay_program(),
        accounts: vec![strategy, filler, filler, filler, filler, base, quote],
        data: vec![consts::DISC_INIT_STRATEGY, 0, 0, 0, 0, 0, 0],
    };
    // Ignored: a non-Quay program, and a Quay non-`init_strategy` ix (swap).
    let foreign = ParsedInstruction {
        program_id: unique(),
        accounts: vec![strategy, filler, filler, filler, filler, base, quote],
        data: vec![consts::DISC_INIT_STRATEGY],
    };
    let quay_swap = ParsedInstruction {
        program_id: quay_program(),
        accounts: vec![strategy],
        data: vec![0x20], // DISC_SWAP
    };
    // Ignored: a malformed `init_strategy` missing the mint accounts.
    let short = ParsedInstruction {
        program_id: quay_program(),
        accounts: vec![strategy, filler],
        data: vec![consts::DISC_INIT_STRATEGY],
    };

    let pools = parse_pool_creations(&[foreign, init, quay_swap, short]);
    assert_eq!(pools.len(), 1, "only the well-formed Quay init_strategy yields a pool");
    assert_eq!(pools[0].pool, strategy);
    assert_eq!(pools[0].mints, vec![base, quote]);
    assert_eq!(pools[0].protocol, PoolProtocol::Quay);
}

#[test]
fn discovery_needs_the_account_in_position_six() {
    assert!(parse_pool_creations(&[init_strategy(6)]).is_empty());
    assert_eq!(parse_pool_creations(&[init_strategy(7)]).len(), 1);
    assert_eq!(parse_pool_creations(&[init_strategy(12)]).len(), 1);
}

#[test]
fn discovery_skips_instructions_without_data() {
    let mut empty = init_strategy(7);
    empty.data.clear();
    assert!(parse_pool_creations(&[empty]).is_empty());
    assert!(parse_pool_creations(&[]).is_empty());
}

#[test]
fn discovery_keeps_order_and_concatenates() {
    let list: Vec<ParsedInstruction> =
        vec![init_strategy(7), init_strategy(2), init_strategy(8), init_strategy(7)];
    let all = parse_pool_creations(&list);
    assert_eq!(all.len(), 3);
    assert_eq!(all[0].pool, list[0].accounts[0]);
    assert_eq!(all[1].pool, list[2].accounts[0]);
    assert_eq!(all[2].pool, list[3].accounts[0]);

    let mut parts = parse_pool_creations(&list[..2]);
    parts.extend(parse_pool_creations(&list[2..]));
    assert_eq!(parts, all);
}
