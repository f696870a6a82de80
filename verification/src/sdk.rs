//! The calls into the Quay SDK and the Solana crates.
//!
//! The functions of this module that carry `external_body` are trusted:
//! their contracts restate what the called crates' sources show.

use quay_sdk::error::ClientError;
use quay_sdk::simulate::{simulate_swap_in, ExtAccount, SwapSimulationInputs};
use quay_sdk::TxContext;
use spl_associated_token_account::get_associated_token_address_with_program_id;
use vstd::prelude::*;

use crate::bytes::{le_bytes, le_u32_at, le_u64_at, read_le_u32};
use crate::pubkey::{key_of, Pubkey};
use crate::types::{AccountMeta, DecodeError, Instruction, InstructionView};

verus! {

// ---- Wire constants -------------------------------------------------------

/// First byte of an `init_strategy` instruction.
pub const DISC_INIT_STRATEGY: u8 = 0x10;

/// First byte of a `swap` instruction.
pub const DISC_SWAP: u8 = 0x20;

/// The routing bit by which a market maker opts a strategy into Titan.
pub const ROUTE_TITAN: u8 = 0x01;

/// `side` byte of a swap that sells base for quote.
pub const SIDE_SELL_BASE: u8 = 0;

/// `side` byte of a swap that buys base with quote.
pub const SIDE_BUY_BASE: u8 = 1;

/// Quay's mainnet program id, `QUayE6nexQWYNZAEqfN8FxoNwQDSu3CAzT2qq9J1ArG`.
///
/// A venue takes the live program id from its strategy account's owner; this
/// constant is for callers that need the id before any strategy is loaded.
pub const QUAY_PROGRAM_ID: [u8; 32] = [
    0x06, 0x03, 0x8c, 0xc2, 0x0d, 0x0b, 0xad, 0xb3, 0xe1, 0x41, 0xb5, 0x59, 0xdd, 0x34, 0x82, 0x78,
    0x35, 0x23, 0xf0, 0x9d, 0x84, 0x4b, 0xd7, 0x33, 0x3a, 0xc9, 0x20, 0xf8, 0xd0, 0x16, 0x31, 0x7d,
];

/// Titan's mainnet router program id,
/// `T1TANpTeScyeqVzzgNViGDNrkQ6qHz9KrSBS4aNXvGT`: the top-level program that
/// a routed swap executes under.
pub const TITAN_ROUTER_ID: [u8; 32] = [
    0x06, 0xa9, 0x9c, 0x6e, 0x12, 0xe7, 0x0e, 0xbb, 0x35, 0x18, 0x5c, 0x14, 0x4c, 0x4b, 0x90, 0x6e,
    0x18, 0xff, 0xb0, 0x0a, 0x47, 0x74, 0x2f, 0x2a, 0x5e, 0x04, 0x11, 0x0b, 0x69, 0x88, 0xc9, 0xd4,
];

// ---- Well-known addresses -------------------------------------------------

/// `TokenkegQfeZyiNwAJbNbGKPFXCWuBvf9Ss623VQ5DA`, the SPL Token program.
pub open spec fn spl_token_bytes() -> Seq<u8> {
    seq![
        0x06u8, 0xdd, 0xf6, 0xe1, 0xd7, 0x65, 0xa1, 0x93,
        0xd9, 0xcb, 0xe1, 0x46, 0xce, 0xeb, 0x79, 0xac,
        0x1c, 0xb4, 0x85, 0xed, 0x5f, 0x5b, 0x37, 0x91,
        0x3a, 0x8c, 0xf5, 0x85, 0x7e, 0xff, 0x00, 0xa9,
    ]
}

/// `TokenzQdBNbLqP5VEhdkAS6EPFLC1PHnBqCXEpPxuEb`, the Token-2022 program.
pub open spec fn token_2022_bytes() -> Seq<u8> {
    seq![
        0x06u8, 0xdd, 0xf6, 0xe1, 0xee, 0x75, 0x8f, 0xde,
        0x18, 0x42, 0x5d, 0xbc, 0xe4, 0x6c, 0xcd, 0xda,
        0xb6, 0x1a, 0xfc, 0x4d, 0x83, 0xb9, 0x0d, 0x27,
        0xfe, 0xbd, 0xf9, 0x28, 0xd8, 0xa1, 0x8b, 0xfc,
    ]
}

/// `ATokenGPvbdGVxr1b2hvZbsiqW5xWH25efTNsLJA8knL`, the associated-token program.
pub open spec fn associated_token_bytes() -> Seq<u8> {
    seq![
        0x8cu8, 0x97, 0x25, 0x8f, 0x4e, 0x24, 0x89, 0xf1,
        0xbb, 0x3d, 0x10, 0x29, 0x14, 0x8e, 0x0d, 0x83,
        0x0b, 0x5a, 0x13, 0x99, 0xda, 0xff, 0x10, 0x84,
        0x04, 0x8e, 0x7b, 0xd8, 0xdb, 0xe9, 0xf8, 0x59,
    ]
}

/// `11111111111111111111111111111111`, the system program: all zeros.
pub open spec fn system_program_bytes() -> Seq<u8> {
    Seq::new(32, |i: int| 0u8)
}

/// `SysvarC1ock11111111111111111111111111111111`, the `Clock` sysvar.
pub open spec fn clock_sysvar_bytes() -> Seq<u8> {
    seq![
        0x06u8, 0xa7, 0xd5, 0x17, 0x18, 0xc7, 0x74, 0xc9,
        0x28, 0x56, 0x63, 0x98, 0x69, 0x1d, 0x5e, 0xb6,
        0x8b, 0x5e, 0xb8, 0xa3, 0x9b, 0x4b, 0x6d, 0x5c,
        0x73, 0x55, 0x5b, 0x21, 0x00, 0x00, 0x00, 0x00,
    ]
}

/// `Sysvar1nstructions1111111111111111111111111`, the instructions sysvar.
pub open spec fn instructions_sysvar_bytes() -> Seq<u8> {
    seq![
        0x06u8, 0xa7, 0xd5, 0x17, 0x18, 0x7b, 0xd1, 0x66,
        0x35, 0xda, 0xd4, 0x04, 0x55, 0xfd, 0xc2, 0xc0,
        0xc1, 0x24, 0xc6, 0x8f, 0x21, 0x56, 0x75, 0xa5,
        0xdb, 0xba, 0xcb, 0x5f, 0x08, 0x00, 0x00, 0x00,
    ]
}

/// Reads `quay_sdk::pda::SPL_TOKEN_PROGRAM_ID`, whose bytes the SDK spells out.
#[verifier::external_body]
pub(crate) fn spl_token_id() -> (id: Pubkey)
    ensures
        id@ == spl_token_bytes(),
{
    Pubkey { bytes: quay_sdk::pda::SPL_TOKEN_PROGRAM_ID.to_bytes() }
}

/// Reads `quay_sdk::pda::TOKEN_2022_PROGRAM_ID`, whose bytes the SDK spells out.
#[verifier::external_body]
pub(crate) fn token_2022_id() -> (id: Pubkey)
    ensures
        id@ == token_2022_bytes(),
{
    Pubkey { bytes: quay_sdk::pda::TOKEN_2022_PROGRAM_ID.to_bytes() }
}

/// Reads `solana_sdk_ids::system_program::ID`, declared in base 58 as 32 ones,
/// that is, as 32 zero bytes.
#[verifier::external_body]
pub(crate) fn system_program_id() -> (id: Pubkey)
    ensures
        id@ == system_program_bytes(),
{
    Pubkey { bytes: solana_sdk_ids::system_program::ID.to_bytes() }
}

/// Reads `solana_sdk_ids::sysvar::clock::ID`, declared in base 58; the contract
/// gives the decoded bytes.
#[verifier::external_body]
pub(crate) fn clock_sysvar_id() -> (id: Pubkey)
    ensures
        id@ == clock_sysvar_bytes(),
{
    Pubkey { bytes: solana_sdk_ids::sysvar::clock::ID.to_bytes() }
}

/// Reads `quay_sdk::ix::INSTRUCTIONS_SYSVAR_ID`, whose bytes the SDK spells out.
#[verifier::external_body]
pub(crate) fn instructions_sysvar_id() -> (id: Pubkey)
    ensures
        id@ == instructions_sysvar_bytes(),
{
    Pubkey { bytes: quay_sdk::ix::INSTRUCTIONS_SYSVAR_ID.to_bytes() }
}

// ---- Account headers ------------------------------------------------------

/// Size of a strategy account's header.
pub const STRATEGY_HEADER_SIZE: usize = 256;

/// Size of a market maker account's header.
pub const MARKET_MAKER_HEADER_SIZE: usize = 64;

/// Size of the global config account.
pub const GLOBAL_CONFIG_SIZE: usize = 128;

/// First byte of a strategy account.
pub const STRATEGY_DISCRIMINATOR: u8 = 0x03;

/// First byte of a market maker account.
pub const MARKET_MAKER_DISCRIMINATOR: u8 = 0x04;

/// First byte of the global config account.
pub const GLOBAL_CONFIG_DISCRIMINATOR: u8 = 0x01;

/// Most external accounts that a strategy can bind.
pub const MAX_EXT_ACCOUNTS: usize = 4;

/// Largest userspace that a strategy can have, in bytes.
pub const MAX_USERSPACE_LEN: usize = 16384;

/// The fields of a strategy account's header that a venue reads.
#[derive(Clone, Copy, Debug, PartialEq, Eq)]
pub struct StrategyHeader {
    pub frozen_admin: u8,
    pub frozen: u8,
    pub owner: Pubkey,
    pub base_mint: Pubkey,
    pub quote_mint: Pubkey,
    pub quotes_account: Pubkey,
    pub routing_flags: u8,
    pub price_probe_base: u64,
    pub price_probe_quote: u64,
}

/// The fields of a market maker account's header that a venue reads.
#[derive(Clone, Copy, Debug, PartialEq, Eq)]
pub struct MarketMakerHeader {
    pub frozen_admin: u8,
    pub halted_admin: u8,
    pub frozen: u8,
}

/// The fields of the global config account that a venue reads.
#[derive(Clone, Copy, Debug, PartialEq, Eq)]
pub struct GlobalConfig {
    pub swap_halted: u8,
    pub protocol_halted: u8,
}

/// What decoding `data` as an account of `size` header bytes and type byte
/// `discriminator` gives, where `header` is what the bytes say.
pub open spec fn checked<H>(
    data: Seq<u8>,
    size: usize,
    discriminator: u8,
    header: H,
) -> Result<H, DecodeError> {
    if data.len() < size {
        Err(DecodeError::AccountTooSmall { got: data.len() as usize, need: size })
    } else if data[0] != discriminator {
        Err(DecodeError::BadDiscriminator { got: data[0], expected: discriminator })
    } else {
        Ok(header)
    }
}

/// What `data` says as a strategy account.
pub open spec fn strategy_header(data: Seq<u8>) -> Result<StrategyHeader, DecodeError> {
    checked(
        data,
        STRATEGY_HEADER_SIZE,
        STRATEGY_DISCRIMINATOR,
        StrategyHeader {
            frozen_admin: data[4],
            frozen: data[5],
            owner: key_of(data.subrange(8, 40)),
            base_mint: key_of(data.subrange(40, 72)),
            quote_mint: key_of(data.subrange(72, 104)),
            quotes_account: key_of(data.subrange(104, 136)),
            routing_flags: data[160],
            price_probe_base: le_u64_at(data, 161),
            price_probe_quote: le_u64_at(data, 169),
        },
    )
}

/// What `data` says as a market maker account.
pub open spec fn market_maker_header(data: Seq<u8>) -> Result<MarketMakerHeader, DecodeError> {
    checked(
        data,
        MARKET_MAKER_HEADER_SIZE,
        MARKET_MAKER_DISCRIMINATOR,
        MarketMakerHeader { frozen_admin: data[2], halted_admin: data[3], frozen: data[4] },
    )
}

/// What `data` says as the global config account.
pub open spec fn global_config(data: Seq<u8>) -> Result<GlobalConfig, DecodeError> {
    checked(
        data,
        GLOBAL_CONFIG_SIZE,
        GLOBAL_CONFIG_DISCRIMINATOR,
        GlobalConfig { swap_halted: data[2], protocol_halted: data[3] },
    )
}

/// Calls `quay_sdk::state::StrategyHeader::try_from_account`, which checks the
/// length (256 bytes at least) and the type byte (3), in this order, and then
/// reads the packed header in place. The contract gives the byte offset of
/// each field; multi-byte integers are little-endian on the wire.
#[verifier::external_body]
pub(crate) fn decode_strategy(data: &[u8]) -> (decoded: Result<StrategyHeader, DecodeError>)
    ensures
        decoded == strategy_header(data@),
{
    match quay_sdk::state::StrategyHeader::try_from_account(data) {
        Ok(h) => Ok(StrategyHeader {
            frozen_admin: h.frozen_admin, frozen: h.frozen,
            owner: Pubkey { bytes: h.owner }, base_mint: Pubkey { bytes: h.base_mint },
            quote_mint: Pubkey { bytes: h.quote_mint },
            quotes_account: Pubkey { bytes: h.quotes_account },
            routing_flags: h.routing_flags,
            price_probe_base: u64::from_le(h.price_probe_base),
            price_probe_quote: u64::from_le(h.price_probe_quote),
        }),
        Err(ClientError::AccountTooSmall { got, need }) => Err(DecodeError::AccountTooSmall { got, need }),
        Err(ClientError::BadDiscriminator { got, expected }) => Err(DecodeError::BadDiscriminator { got, expected }),
        Err(_) => Err(DecodeError::Other),
    }
}

/// Calls `quay_sdk::state::MarketMakerHeader::try_from_account`, which checks
/// the length (64 bytes at least) and the type byte (4), in this order, and
/// then reads the packed header in place.
#[verifier::external_body]
pub(crate) fn decode_market_maker(data: &[u8]) -> (decoded: Result<MarketMakerHeader, DecodeError>)
    ensures
        decoded == market_maker_header(data@),
{
    match quay_sdk::state::MarketMakerHeader::try_from_account(data) {
        Ok(h) => Ok(MarketMakerHeader {
            frozen_admin: h.frozen_admin,
            halted_admin: h.halted_admin,
            frozen: h.frozen,
        }),
        Err(ClientError::AccountTooSmall { got, need }) => Err(DecodeError::AccountTooSmall { got, need }),
        Err(ClientError::BadDiscriminator { got, expected }) => Err(DecodeError::BadDiscriminator { got, expected }),
        Err(_) => Err(DecodeError::Other),
    }
}

/// Calls `quay_sdk::state::GlobalConfig::try_from_account`, which checks the
/// length (128 bytes at least) and the type byte (1), in this order, and then
/// reads the packed account in place.
#[verifier::external_body]
pub(crate) fn decode_global_config(data: &[u8]) -> (decoded: Result<GlobalConfig, DecodeError>)
    ensures
        decoded == global_config(data@),
{
    match quay_sdk::state::GlobalConfig::try_from_account(data) {
        Ok(c) => Ok(GlobalConfig { swap_halted: c.swap_halted, protocol_halted: c.protocol_halted }),
        Err(ClientError::AccountTooSmall { got, need }) => Err(DecodeError::AccountTooSmall { got, need }),
        Err(ClientError::BadDiscriminator { got, expected }) => Err(DecodeError::BadDiscriminator { got, expected }),
        Err(_) => Err(DecodeError::Other),
    }
}

/// The bytes that a strategy account declares: header, bytecode (its length
/// at byte 144) and userspace (its length at byte 148).
pub open spec fn strategy_extent(data: Seq<u8>) -> int {
    STRATEGY_HEADER_SIZE + le_u32_at(data, 144) + le_u32_at(data, 148)
}

/// The bytes that a market maker account declares: header and asset table of
/// 48-byte rows (their number at byte 40).
pub open spec fn market_maker_extent(data: Seq<u8>) -> int {
    MARKET_MAKER_HEADER_SIZE + 48 * le_u32_at(data, 40)
}

/// The external accounts that the strategy account `data` binds, in order.
///
/// The header declares a count (byte 181) and an offset into the userspace
/// (bytes 177 to 181); the userspace follows the header and the bytecode.
pub open spec fn ext_binding(data: Seq<u8>) -> Result<Seq<Pubkey>, DecodeError> {
    let count = data[181] as int;
    let offset = le_u32_at(data, 177) as int;
    let userspace_start = STRATEGY_HEADER_SIZE + le_u32_at(data, 144);
    let userspace_len = le_u32_at(data, 148) as int;
    if count == 0 {
        Ok(Seq::empty())
    } else if count > MAX_EXT_ACCOUNTS {
        Err(DecodeError::InvalidInput("ext account count exceeds cap"))
    } else if strategy_extent(data) > usize::MAX {
        Err(DecodeError::ExtentOverflow)
    } else if data.len() < strategy_extent(data) {
        Err(
            DecodeError::LogicalExtentExceedsAccount {
                got: data.len() as usize,
                need: strategy_extent(data) as usize,
            },
        )
    } else if offset + 32 * count > usize::MAX {
        Err(DecodeError::InvalidInput("ext key block overflows"))
    } else if offset + 32 * count > userspace_len {
        Err(DecodeError::InvalidInput("ext key block outside userspace"))
    } else {
        let block = userspace_start + offset;
        Ok(
            Seq::new(
                count as nat,
                |i: int| key_of(data.subrange(block + 32 * i, block + 32 * i + 32)),
            ),
        )
    }
}

/// Calls `quay_sdk::state::StrategyHeader::ext_account_keys` on the header that
/// `try_from_account` finds in the same bytes. It checks the count against the
/// cap of 4, the declared extent against the account's length and the key
/// block against the userspace, in this order, and copies the keys out.
///
/// The SDK adds up the extent in `usize` without checking, hence the
/// precondition, which always holds where `usize` has 64 bits. It reads the
/// header's lengths in the byte order of the host, so that the contract is
/// that of a little-endian host.
#[verifier::external_body]
pub(crate) fn decode_ext_binding(data: &[u8]) -> (decoded: Result<Vec<Pubkey>, DecodeError>)
    requires
        strategy_header(data@) is Ok,
        strategy_extent(data@) <= usize::MAX,
    ensures
        match decoded {
            Ok(keys) => ext_binding(data@) == Ok::<Seq<Pubkey>, DecodeError>(keys@),
            Err(error) => ext_binding(data@) == Err::<Seq<Pubkey>, DecodeError>(error),
        },
{
    match quay_sdk::state::StrategyHeader::try_from_account(data).and_then(|h| h.ext_account_keys(data)) {
        Ok(keys) => Ok(keys.into_iter().map(|bytes| Pubkey { bytes }).collect()),
        Err(ClientError::LogicalExtentExceedsAccount { got, need }) => {
            Err(DecodeError::LogicalExtentExceedsAccount { got, need })
        }
        Err(ClientError::InvalidInput(why)) => Err(DecodeError::InvalidInput(why)),
        Err(_) => Err(DecodeError::Other),
    }
}

/// Whether the extent that a strategy account declares fits in a `usize`.
pub(crate) fn strategy_extent_fits(data: &[u8]) -> (fits: bool)
    requires
        data@.len() >= STRATEGY_HEADER_SIZE,
    ensures
        fits == (strategy_extent(data@) <= usize::MAX),
{
    let bytecode_len: u32 = read_le_u32(data, 144);
    let userspace_len: u32 = read_le_u32(data, 148);
    let extent: u64 = STRATEGY_HEADER_SIZE as u64 + bytecode_len as u64 + userspace_len as u64;
    extent <= usize::MAX as u64
}

/// Whether the extent that a market maker account declares fits in a `usize`.
pub(crate) fn market_maker_extent_fits(data: &[u8]) -> (fits: bool)
    requires
        data@.len() >= MARKET_MAKER_HEADER_SIZE,
    ensures
        fits == (market_maker_extent(data@) <= usize::MAX),
{
    let asset_count: u32 = read_le_u32(data, 40);
    let extent: u64 = MARKET_MAKER_HEADER_SIZE as u64 + 48 * asset_count as u64;
    extent <= usize::MAX as u64
}

/// Decodes the external accounts that a strategy account binds.
pub(crate) fn ext_account_keys(data: &[u8]) -> (decoded: Result<Vec<Pubkey>, DecodeError>)
    requires
        strategy_header(data@) is Ok,
    ensures
        match decoded {
            Ok(keys) => ext_binding(data@) == Ok::<Seq<Pubkey>, DecodeError>(keys@),
            Err(error) => ext_binding(data@) == Err::<Seq<Pubkey>, DecodeError>(error),
        },
{
    if !strategy_extent_fits(data) {
        let count: u8 = data[181];
        if count == 0 {
            return Ok(Vec::new());
        }
        if count as usize > MAX_EXT_ACCOUNTS {
            return Err(DecodeError::InvalidInput("ext account count exceeds cap"));
        }
        return Err(DecodeError::ExtentOverflow);
    }
    decode_ext_binding(data)
}

// ---- Derived addresses ----------------------------------------------------

/// The address that `solana_pubkey::Pubkey::find_program_address` derives from
/// `seeds` under `program_id`: a hash of both and of the first bump that
/// takes it off the ed25519 curve.
pub uninterp spec fn program_address(seeds: Seq<Seq<u8>>, program_id: Seq<u8>) -> Seq<u8>;

/// The ASCII bytes of `global`.
pub open spec fn seed_global() -> Seq<u8> {
    seq![0x67u8, 0x6c, 0x6f, 0x62, 0x61, 0x6c]
}

/// The ASCII bytes of `mm`.
pub open spec fn seed_mm() -> Seq<u8> {
    seq![0x6du8, 0x6d]
}

/// The ASCII bytes of `vault`.
pub open spec fn seed_vault() -> Seq<u8> {
    seq![0x76u8, 0x61, 0x75, 0x6c, 0x74]
}

/// The program's global config account: seeds `["global"]`.
pub open spec fn global_config_address(program_id: Pubkey) -> Pubkey {
    key_of(program_address(seq![seed_global()], program_id@))
}

/// The owner's market maker account: seeds `["mm", owner]`.
pub open spec fn market_maker_address(program_id: Pubkey, owner: Pubkey) -> Pubkey {
    key_of(program_address(seq![seed_mm(), owner@], program_id@))
}

/// The market maker's vault for a mint: seeds `["vault", market_maker, mint]`.
pub open spec fn vault_address(program_id: Pubkey, market_maker: Pubkey, mint: Pubkey) -> Pubkey {
    key_of(program_address(seq![seed_vault(), market_maker@, mint@], program_id@))
}

/// A wallet's associated token account for a mint: seeds
/// `[wallet, token_program, mint]` under the associated-token program.
pub open spec fn token_account_address(
    wallet: Pubkey,
    mint: Pubkey,
    token_program: Pubkey,
) -> Pubkey {
    key_of(program_address(seq![wallet@, token_program@, mint@], associated_token_bytes()))
}

/// Calls `quay_sdk::pda::global_config_pda` and keeps the address of the pair
/// it returns. Like every derivation here it would panic if none of the 255
/// bumps it tries gave an address off the curve, which has no known input.
#[verifier::external_body]
pub(crate) fn global_config_pda(program_id: &Pubkey) -> (address: Pubkey)
    ensures
        address@ == program_address(seq![seed_global()], program_id@),
{
    Pubkey { bytes: quay_sdk::pda::global_config_pda(&program_id.bytes.into()).0.to_bytes() }
}

/// Calls `quay_sdk::pda::market_maker_pda` and keeps the address of the pair
/// it returns.
#[verifier::external_body]
pub(crate) fn market_maker_pda(program_id: &Pubkey, owner: &Pubkey) -> (address: Pubkey)
    ensures
        address@ == program_address(seq![seed_mm(), owner@], program_id@),
{
    let pda = quay_sdk::pda::market_maker_pda(&program_id.bytes.into(), &owner.bytes.into());
    Pubkey { bytes: pda.0.to_bytes() }
}

/// Calls `quay_sdk::pda::vault_pda` and keeps the address of the pair it
/// returns.
#[verifier::external_body]
pub(crate) fn vault_pda(
    program_id: &Pubkey,
    market_maker: &Pubkey,
    mint: &Pubkey,
) -> (address: Pubkey)
    ensures
        address@ == program_address(seq![seed_vault(), market_maker@, mint@], program_id@),
{
    let pda = quay_sdk::pda::vault_pda(
        &program_id.bytes.into(),
        &market_maker.bytes.into(),
        &mint.bytes.into(),
    );
    Pubkey { bytes: pda.0.to_bytes() }
}

/// Calls
/// `spl_associated_token_account::get_associated_token_address_with_program_id`.
#[verifier::external_body]
pub(crate) fn associated_token_address(
    wallet: &Pubkey,
    mint: &Pubkey,
    token_program: &Pubkey,
) -> (address: Pubkey)
    ensures
        address@ == program_address(
            seq![wallet@, token_program@, mint@],
            associated_token_bytes(),
        ),
{
    let address = get_associated_token_address_with_program_id(
        &wallet.bytes.into(),
        &mint.bytes.into(),
        &token_program.bytes.into(),
    );
    Pubkey { bytes: address.to_bytes() }
}

// ---- Swap simulation ------------------------------------------------------

/// The inputs of one simulated swap.
pub struct SwapInputs<'a> {
    pub strategy_data: &'a Vec<u8>,
    pub market_maker_data: &'a Vec<u8>,
    pub quotes_data: &'a Vec<u8>,
    pub global_config_data: &'a Vec<u8>,
    pub current_slot: u64,
    pub current_unix_sec: i64,
    pub side: u8,
    pub amount_in: u64,
    pub min_amount_out: u64,
    pub base_decimals: u8,
    pub quote_decimals: u8,
    /// Invocation depth that the swap executes at: 1 at the top level.
    pub ix_depth: u8,
    /// The top-level program that the swap executes under.
    pub entrypoint_program: Pubkey,
    /// Slot of the last cluster restart, 0 for none known.
    pub last_restart_slot: u64,
    pub ext_keys: &'a Vec<Pubkey>,
    pub ext_data: &'a Vec<Vec<u8>>,
}

/// The model of [`SwapInputs`].
pub struct SwapInputsView {
    pub strategy_data: Seq<u8>,
    pub market_maker_data: Seq<u8>,
    pub quotes_data: Seq<u8>,
    pub global_config_data: Seq<u8>,
    pub current_slot: u64,
    pub current_unix_sec: i64,
    pub side: u8,
    pub amount_in: u64,
    pub min_amount_out: u64,
    pub base_decimals: u8,
    pub quote_decimals: u8,
    pub ix_depth: u8,
    pub entrypoint_program: Pubkey,
    pub last_restart_slot: u64,
    pub ext_keys: Seq<Pubkey>,
    pub ext_data: Seq<Seq<u8>>,
}

impl<'a> View for SwapInputs<'a> {
    type V = SwapInputsView;

    open spec fn view(&self) -> SwapInputsView {
        SwapInputsView {
            strategy_data: self.strategy_data@,
            market_maker_data: self.market_maker_data@,
            quotes_data: self.quotes_data@,
            global_config_data: self.global_config_data@,
            current_slot: self.current_slot,
            current_unix_sec: self.current_unix_sec,
            side: self.side,
            amount_in: self.amount_in,
            min_amount_out: self.min_amount_out,
            base_decimals: self.base_decimals,
            quote_decimals: self.quote_decimals,
            ix_depth: self.ix_depth,
            entrypoint_program: self.entrypoint_program,
            last_restart_slot: self.last_restart_slot,
            ext_keys: self.ext_keys@,
            ext_data: blobs(self.ext_data@),
        }
    }
}

/// The contents of a list of byte vectors.
pub open spec fn blobs(data: Seq<Vec<u8>>) -> Seq<Seq<u8>> {
    data.map_values(|blob: Vec<u8>| blob@)
}

/// The model of the simulator's inputs holds their fields.
pub proof fn law_swap_inputs_model(inputs: SwapInputs<'_>)
    ensures
        inputs@.strategy_data == inputs.strategy_data@,
        inputs@.market_maker_data == inputs.market_maker_data@,
        inputs@.quotes_data == inputs.quotes_data@,
        inputs@.global_config_data == inputs.global_config_data@,
        inputs@.current_slot == inputs.current_slot,
        inputs@.current_unix_sec == inputs.current_unix_sec,
        inputs@.side == inputs.side,
        inputs@.amount_in == inputs.amount_in,
        inputs@.min_amount_out == inputs.min_amount_out,
        inputs@.base_decimals == inputs.base_decimals,
        inputs@.quote_decimals == inputs.quote_decimals,
        inputs@.ix_depth == inputs.ix_depth,
        inputs@.entrypoint_program == inputs.entrypoint_program,
        inputs@.last_restart_slot == inputs.last_restart_slot,
        inputs@.ext_keys == inputs.ext_keys@,
        inputs@.ext_data.len() == inputs.ext_data@.len(),
        forall|i: int|
            0 <= i < inputs.ext_data@.len() ==> #[trigger] inputs@.ext_data[i]
                == inputs.ext_data@[i]@,
{
}

/// The extents that the two accounts declare, as far as they are long enough
/// to declare one, fit in a `usize`.
pub open spec fn extents_fit(strategy_data: Seq<u8>, market_maker_data: Seq<u8>) -> bool {
    &&& strategy_data.len() >= STRATEGY_HEADER_SIZE ==> strategy_extent(strategy_data)
        <= usize::MAX
    &&& market_maker_data.len() >= MARKET_MAKER_HEADER_SIZE ==> market_maker_extent(
        market_maker_data,
    ) <= usize::MAX
}

/// Whether the simulator can add up the extents of the two accounts.
pub(crate) fn check_extents(strategy_data: &[u8], market_maker_data: &[u8]) -> (fit: bool)
    ensures
        fit == extents_fit(strategy_data@, market_maker_data@),
{
    let strategy = strategy_data.len() < STRATEGY_HEADER_SIZE || strategy_extent_fits(
        strategy_data,
    );
    let market_maker = market_maker_data.len() < MARKET_MAKER_HEADER_SIZE
        || market_maker_extent_fits(market_maker_data);
    strategy && market_maker
}

/// The output atoms that `quay_sdk::simulate::simulate_swap_in` prices for the
/// given inputs under a transaction context without flags or signers, or
/// `None` where it returns an error: it runs the strategy's bytecode in the
/// Quay VM.
pub uninterp spec fn simulated_output(inputs: SwapInputsView) -> Option<u64>;

/// Calls `quay_sdk::simulate::simulate_swap_in` with a scratch buffer of the
/// largest userspace a strategy can have, and keeps the output amount. The
/// simulator copies the userspace into the buffer before it reads it, so that
/// the result depends on the inputs alone; it refuses a swap with zero
/// output.
///
/// The simulator adds up the extents that the strategy and the market maker
/// declare in `usize` without checking, hence the precondition, which always
/// holds where `usize` has 64 bits. It reads the headers in the byte order of
/// the host; the name stands for the result on a little-endian one.
#[verifier::external_body]
pub(crate) fn simulate_swap(inputs: &SwapInputs<'_>) -> (output: Option<u64>)
    requires
        extents_fit(inputs.strategy_data@, inputs.market_maker_data@),
        inputs.ext_keys@.len() == inputs.ext_data@.len(),
    ensures
        output == simulated_output(inputs@),
        output matches Some(out) ==> out > 0,
{
    let SwapInputs { strategy_data, market_maker_data, quotes_data, global_config_data, current_slot,
        current_unix_sec, side, amount_in, min_amount_out, base_decimals, quote_decimals, ix_depth,
        last_restart_slot, .. } = *inputs;
    let tx = TxContext { ix_depth, entrypoint_program: inputs.entrypoint_program.bytes, ..TxContext::DIRECT };
    let pairs = inputs.ext_keys.iter().zip(inputs.ext_data);
    let ext: Vec<ExtAccount<'_>> = pairs.map(|(k, d)| ExtAccount { key: k.bytes, data: d }).collect();
    let swap = SwapSimulationInputs { strategy_data, market_maker_data, quotes_data, global_config_data,
        current_slot, current_unix_sec, side, amount_in, min_amount_out, base_decimals, quote_decimals,
        tx, last_restart_slot, ext_accounts: &ext };
    simulate_swap_in(swap, &mut [0u8; MAX_USERSPACE_LEN]).ok().map(|q| q.out_to_taker)
}

// ---- Swap instruction -----------------------------------------------------

/// The accounts of a `swap` instruction.
pub struct SwapAccounts {
    pub program_id: Pubkey,
    pub strategy: Pubkey,
    pub market_maker: Pubkey,
    pub quotes: Pubkey,
    pub base_mint: Pubkey,
    pub quote_mint: Pubkey,
    pub taker: Pubkey,
    pub taker_ata_base: Pubkey,
    pub taker_ata_quote: Pubkey,
    pub base_token_program: Pubkey,
    pub quote_token_program: Pubkey,
}

/// A read-only account.
pub open spec fn readonly(pubkey: Pubkey) -> AccountMeta {
    AccountMeta { pubkey, is_signer: false, is_writable: false }
}

/// A writable account.
pub open spec fn writable(pubkey: Pubkey) -> AccountMeta {
    AccountMeta { pubkey, is_signer: false, is_writable: true }
}

/// A writable account that signs.
pub open spec fn signer(pubkey: Pubkey) -> AccountMeta {
    AccountMeta { pubkey, is_signer: true, is_writable: true }
}

/// The account list of a `swap`, in and out accounts ordered by `side`; the
/// second token program is left out where it equals the first.
pub open spec fn swap_metas(a: SwapAccounts, side: u8) -> Seq<AccountMeta> {
    let vault_base = vault_address(a.program_id, a.market_maker, a.base_mint);
    let vault_quote = vault_address(a.program_id, a.market_maker, a.quote_mint);
    let sells = side == SIDE_SELL_BASE;
    seq![
        readonly(global_config_address(a.program_id)),
        writable(a.strategy),
        writable(a.market_maker),
        readonly(a.quotes),
        writable(if sells { vault_base } else { vault_quote }),
        writable(if sells { vault_quote } else { vault_base }),
        writable(if sells { a.taker_ata_base } else { a.taker_ata_quote }),
        writable(if sells { a.taker_ata_quote } else { a.taker_ata_base }),
        signer(a.taker),
        readonly(if sells { a.base_mint } else { a.quote_mint }),
        readonly(if sells { a.quote_mint } else { a.base_mint }),
        readonly(key_of(instructions_sysvar_bytes())),
        readonly(a.base_token_program),
    ] + if a.quote_token_program == a.base_token_program {
        Seq::empty()
    } else {
        seq![readonly(a.quote_token_program)]
    }
}

/// The data of a `swap`: type byte, both amounts in little-endian, side.
pub open spec fn swap_data(amount_in: u64, min_amount_out: u64, side: u8) -> Seq<u8> {
    seq![DISC_SWAP] + le_bytes(amount_in as int, 8) + le_bytes(min_amount_out as int, 8)
        + seq![side]
}

/// The `swap` instruction for these accounts, amounts and side.
pub open spec fn swap_instruction(
    accounts: SwapAccounts,
    amount_in: u64,
    min_amount_out: u64,
    side: u8,
) -> InstructionView {
    InstructionView {
        program_id: accounts.program_id,
        accounts: swap_metas(accounts, side),
        data: swap_data(amount_in, min_amount_out, side),
    }
}

/// Calls `quay_sdk::ix::swap`, which derives the config and vault addresses
/// itself and panics on a side above 1.
#[verifier::external_body]
pub(crate) fn swap_ix(
    a: &SwapAccounts,
    amount_in: u64,
    min_amount_out: u64,
    side: u8,
) -> (instruction: Instruction)
    requires
        side <= 1,
    ensures
        instruction@ == swap_instruction(*a, amount_in, min_amount_out, side),
{
    let key = |k: Pubkey| k.bytes.into();
    let ix = quay_sdk::ix::swap(
        &key(a.program_id), &key(a.strategy), &key(a.market_maker), &key(a.quotes),
        &key(a.base_mint), &key(a.quote_mint), &key(a.taker), &key(a.taker_ata_base),
        &key(a.taker_ata_quote), &key(a.base_token_program), &key(a.quote_token_program),
        amount_in, min_amount_out, side,
    );
    Instruction {
        program_id: Pubkey { bytes: ix.program_id.to_bytes() },
        accounts: ix.accounts.iter().map(|m| AccountMeta {
            pubkey: Pubkey { bytes: m.pubkey.to_bytes() },
            is_signer: m.is_signer, is_writable: m.is_writable,
        }).collect(),
        data: ix.data,
    }
}

} // verus!
