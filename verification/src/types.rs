//! The values a router exchanges with a venue.

use vstd::prelude::*;

use crate::pubkey::Pubkey;

verus! {

/// An on-chain account: the program that owns it and its raw bytes.
#[derive(Clone, Debug, PartialEq, Eq)]
pub struct Account {
    pub owner: Pubkey,
    pub data: Vec<u8>,
}

/// Which side of a swap the requested amount fixes.
#[derive(Clone, Copy, Debug, PartialEq, Eq)]
pub enum SwapType {
    ExactIn,
    ExactOut,
}

/// A router's request for a quote or for a swap instruction.
#[derive(Clone, Copy, Debug, PartialEq, Eq)]
pub struct QuoteRequest {
    pub input_mint: Pubkey,
    pub output_mint: Pubkey,
    pub amount: u64,
    pub swap_type: SwapType,
}

/// Output atoms per input atom, as an exact ratio.
///
/// A ratio with denominator 0 stands for the quotient of the two numbers in
/// floating point, which is infinite (or undefined, over a zero numerator).
#[derive(Clone, Copy, Debug, PartialEq, Eq)]
pub struct Price {
    pub numerator: u64,
    pub denominator: u64,
}

/// A venue's answer to a [`QuoteRequest`].
#[derive(Clone, Copy, Debug, PartialEq, Eq)]
pub struct QuoteResult {
    pub input_mint: Pubkey,
    pub output_mint: Pubkey,
    pub amount: u64,
    pub expected_output: u64,
    pub not_enough_liquidity: bool,
    pub price: Price,
}

/// The token program that owns a mint.
#[derive(Clone, Copy, Debug, PartialEq, Eq)]
pub enum TokenProgram {
    SplToken,
    Token2022,
}

/// What routing needs to know of a mint.
#[derive(Clone, Copy, Debug, PartialEq, Eq)]
pub struct TokenInfo {
    pub pubkey: Pubkey,
    pub decimals: i32,
    pub program: TokenProgram,
}

/// The protocols a pool can belong to.
#[derive(Clone, Copy, Debug, PartialEq, Eq)]
pub enum PoolProtocol {
    Quay,
}

/// One instruction of a confirmed transaction.
#[derive(Clone, Debug, PartialEq, Eq)]
pub struct ParsedInstruction {
    pub program_id: Pubkey,
    pub accounts: Vec<Pubkey>,
    pub data: Vec<u8>,
}

/// A pool found in a confirmed transaction.
#[derive(Clone, Debug, PartialEq, Eq)]
pub struct PoolCreation {
    pub protocol: PoolProtocol,
    pub pool: Pubkey,
    pub mints: Vec<Pubkey>,
}

/// The model of a [`PoolCreation`].
pub struct PoolCreationView {
    pub protocol: PoolProtocol,
    pub pool: Pubkey,
    pub mints: Seq<Pubkey>,
}

impl View for PoolCreation {
    type V = PoolCreationView;

    open spec fn view(&self) -> PoolCreationView {
        PoolCreationView { protocol: self.protocol, pool: self.pool, mints: self.mints@ }
    }
}

/// One account of an instruction, with the access the instruction needs.
#[derive(Clone, Copy, Debug, PartialEq, Eq)]
pub struct AccountMeta {
    pub pubkey: Pubkey,
    pub is_signer: bool,
    pub is_writable: bool,
}

/// An instruction for the chain.
#[derive(Clone, Debug, PartialEq, Eq)]
pub struct Instruction {
    pub program_id: Pubkey,
    pub accounts: Vec<AccountMeta>,
    pub data: Vec<u8>,
}

/// The model of an [`Instruction`].
pub struct InstructionView {
    pub program_id: Pubkey,
    pub accounts: Seq<AccountMeta>,
    pub data: Seq<u8>,
}

impl View for Instruction {
    type V = InstructionView;

    open spec fn view(&self) -> InstructionView {
        InstructionView {
            program_id: self.program_id,
            accounts: self.accounts@,
            data: self.data@,
        }
    }
}

/// One of the two mints of a strategy.
#[derive(Clone, Copy, Debug, PartialEq, Eq)]
pub enum Leg {
    Base,
    Quote,
}

/// Why the Quay SDK refused to decode account data.
#[derive(Clone, Copy, Debug, PartialEq, Eq)]
pub enum DecodeError {
    /// The data is shorter than the account's header.
    AccountTooSmall { got: usize, need: usize },
    /// The first byte is not the account type's discriminator.
    BadDiscriminator { got: u8, expected: u8 },
    /// The header declares more bytes than the account holds.
    LogicalExtentExceedsAccount { got: usize, need: usize },
    /// A field holds a value that the program never writes.
    InvalidInput(&'static str),
    /// The header declares more bytes than a `usize` counts on this host.
    ExtentOverflow,
    /// Any other error of the SDK.
    Other,
}

/// Which part of the account batch failed to decode.
#[derive(Clone, Copy, Debug, PartialEq, Eq)]
pub enum DecodeFailure {
    StrategyHeader(DecodeError),
    MarketMakerHeader(DecodeError),
    GlobalConfig(DecodeError),
    ExtBinding(DecodeError),
    /// The mint account of this leg was not accepted as a token mint.
    TokenMint(Leg),
    ClockTooShort,
}

/// Why a venue turned a request down.
#[derive(Clone, Copy, Debug, PartialEq, Eq)]
pub enum TradingVenueError {
    /// The venue prices exact-in swaps only.
    ExactOutNotSupported,
    /// The requested mints are not the venue's pair; holds the input mint.
    InvalidMint(Pubkey),
    /// The venue is not routable now; holds the strategy.
    NotInitialized(Pubkey),
    /// Token metadata for this leg is missing.
    MissingState(Leg),
    /// An account's bytes could not be decoded.
    DeserializationFailed(DecodeFailure),
    /// This account is missing from the batch.
    NoAccountFound(Pubkey),
    /// The batch has not as many entries as were asked for.
    FailedToFetchMultipleAccountData,
}

/// The model of a pool holds its fields.
pub proof fn law_pool_model(pool: PoolCreation)
    ensures
        pool@.protocol == pool.protocol,
        pool@.pool == pool.pool,
        pool@.mints == pool.mints@,
{
}

/// The model of an instruction holds its fields.
pub proof fn law_instruction_model(instruction: Instruction)
    ensures
        instruction@.program_id == instruction.program_id,
        instruction@.accounts == instruction.accounts@,
        instruction@.data == instruction.data@,
{
}

} // verus!
