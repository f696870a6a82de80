//! Swap instructions and address-lookup-table keys.

use vstd::prelude::*;

use crate::bytes::{le_bytes, le_value, lemma_le_roundtrip, lemma_pow_256_8};
use crate::pubkey::{key_of, lemma_key_bytes, lemma_key_of, Pubkey};
use crate::quote::{
    law_token_is_the_first, law_token_is_there_iff_named, quote_error, side_of, token_of,
};
use crate::sdk::{
    associated_token_address, associated_token_bytes, instructions_sysvar_bytes,
    instructions_sysvar_id, program_address, seed_global, seed_vault, spl_token_bytes, spl_token_id,
    swap_instruction, swap_ix, system_program_bytes, token_2022_bytes, token_2022_id,
    token_account_address, SwapAccounts,
};
use crate::types::{
    AccountMeta, Instruction, InstructionView, Leg, QuoteRequest, SwapType, TokenInfo, TokenProgram,
    TradingVenueError,
};
use crate::venue::{dependency_keys, QuayVenue, VenueState};

verus! {

broadcast use lemma_key_of;

/// The address of the token program that owns a mint.
pub open spec fn token_program_key(token: TokenInfo) -> Pubkey {
    match token.program {
        TokenProgram::SplToken => key_of(spl_token_bytes()),
        TokenProgram::Token2022 => key_of(token_2022_bytes()),
    }
}

impl TokenInfo {
    /// The address of the token program that owns the mint.
    pub fn get_token_program(&self) -> (program: Pubkey)
        ensures
            program == token_program_key(*self),
    {
        match self.program {
            TokenProgram::SplToken => spl_token_id(),
            TokenProgram::Token2022 => token_2022_id(),
        }
    }
}

/// Why the venue builds no swap instruction for a request, if so.
pub open spec fn swap_error(venue: VenueState, request: QuoteRequest) -> Option<
    TradingVenueError,
> {
    if request.swap_type == SwapType::ExactOut {
        Some(TradingVenueError::ExactOutNotSupported)
    } else if side_of(venue, request.input_mint, request.output_mint) is None {
        Some(TradingVenueError::InvalidMint(request.input_mint))
    } else if token_of(venue.tokens, venue.base_mint) is None {
        Some(TradingVenueError::MissingState(Leg::Base))
    } else if token_of(venue.tokens, venue.quote_mint) is None {
        Some(TradingVenueError::MissingState(Leg::Quote))
    } else {
        None
    }
}

/// The accounts of a swap by `user`. The user's token accounts are derived
/// per mint: the two token programs have different ones.
pub open spec fn swap_accounts(venue: VenueState, user: Pubkey) -> SwapAccounts {
    let base_program = token_program_key(token_of(venue.tokens, venue.base_mint)->0);
    let quote_program = token_program_key(token_of(venue.tokens, venue.quote_mint)->0);
    SwapAccounts {
        program_id: venue.program_id,
        strategy: venue.strategy_key,
        market_maker: venue.mm_key,
        quotes: venue.quotes_key,
        base_mint: venue.base_mint,
        quote_mint: venue.quote_mint,
        taker: user,
        taker_ata_base: token_account_address(user, venue.base_mint, base_program),
        taker_ata_quote: token_account_address(user, venue.quote_mint, quote_program),
        base_token_program: base_program,
        quote_token_program: quote_program,
    }
}

/// The swap instruction for a request by `user`. The minimum output is 0: the
/// router enforces slippage over the whole route.
pub open spec fn swap_answer(
    venue: VenueState,
    request: QuoteRequest,
    user: Pubkey,
) -> InstructionView
    recommends
        swap_error(venue, request) is None,
{
    swap_instruction(
        swap_accounts(venue, user),
        request.amount,
        0,
        side_of(venue, request.input_mint, request.output_mint)->0,
    )
}

/// The stable accounts that every swap against the venue touches, followed by
/// the programs that it may call into.
pub open spec fn lookup_keys(venue: VenueState) -> Seq<Pubkey> {
    seq![
        venue.program_id,
        venue.global_config_key,
        venue.strategy_key,
        venue.mm_key,
        venue.quotes_key,
        venue.vault_base_key,
        venue.vault_quote_key,
        venue.base_mint,
        venue.quote_mint,
        key_of(instructions_sysvar_bytes()),
    ] + dependency_keys()
}

impl QuayVenue {
    /// The token program that owns one of the strategy's mints.
    pub fn token_program_for(&self, mint: &Pubkey) -> (program: Option<Pubkey>)
        ensures
            program == match token_of(self@.tokens, *mint) {
                Some(token) => Some(token_program_key(token)),
                None => None,
            },
    {
        match self.token_info_for(mint) {
            Some(token) => Some(token.get_token_program()),
            None => None,
        }
    }

    /// Builds the on-chain `swap` instruction for a request by `user`.
    pub fn build_swap_ix(&self, request: QuoteRequest, user: Pubkey) -> (built: Result<
        Instruction,
        TradingVenueError,
    >)
        ensures
            match built {
                Ok(instruction) => {
                    &&& swap_error(self@, request) is None
                    &&& instruction@ == swap_answer(self@, request, user)
                },
                Err(error) => swap_error(self@, request) == Some(error),
            },
            built matches Ok(instruction) ==> {
                &&& instruction.program_id == self.program_id
                &&& instruction.accounts@.len() >= 13
                &&& token_of(self.tokens@, request.input_mint)->0.program == TokenProgram::SplToken
                    ==> instruction.accounts@[6].pubkey@ == program_address(
                    seq![user@, spl_token_bytes(), request.input_mint@],
                    associated_token_bytes(),
                )
                &&& token_of(self.tokens@, request.input_mint)->0.program == TokenProgram::Token2022
                    ==> instruction.accounts@[6].pubkey@ == program_address(
                    seq![user@, token_2022_bytes(), request.input_mint@],
                    associated_token_bytes(),
                )
                &&& token_of(self.tokens@, request.output_mint)->0.program == TokenProgram::SplToken
                    ==> instruction.accounts@[7].pubkey@ == program_address(
                    seq![user@, spl_token_bytes(), request.output_mint@],
                    associated_token_bytes(),
                )
                &&& token_of(self.tokens@, request.output_mint)->0.program == TokenProgram::Token2022
                    ==> instruction.accounts@[7].pubkey@ == program_address(
                    seq![user@, token_2022_bytes(), request.output_mint@],
                    associated_token_bytes(),
                )
                &&& le_value(instruction.data@.subrange(1, 9)) == request.amount
                &&& le_value(instruction.data@.subrange(9, 17)) == 0
            },
    {
        if let SwapType::ExactOut = request.swap_type {
            return Err(TradingVenueError::ExactOutNotSupported);
        }
        let side = match self.swap_side(&request.input_mint, &request.output_mint) {
            Some(side) => side,
            None => return Err(TradingVenueError::InvalidMint(request.input_mint)),
        };
        let base_program = match self.token_program_for(&self.base_mint) {
            Some(program) => program,
            None => return Err(TradingVenueError::MissingState(Leg::Base)),
        };
        let quote_program = match self.token_program_for(&self.quote_mint) {
            Some(program) => program,
            None => return Err(TradingVenueError::MissingState(Leg::Quote)),
        };
        let taker_ata_base = associated_token_address(&user, &self.base_mint, &base_program);
        let taker_ata_quote = associated_token_address(&user, &self.quote_mint, &quote_program);
        let accounts = SwapAccounts {
            program_id: self.program_id,
            strategy: self.strategy_key,
            market_maker: self.mm_key,
            quotes: self.quotes_key,
            base_mint: self.base_mint,
            quote_mint: self.quote_mint,
            taker: user,
            taker_ata_base,
            taker_ata_quote,
            base_token_program: base_program,
            quote_token_program: quote_program,
        };
        proof {
            law_token_programs(token_of(self@.tokens, self.base_mint)->0);
            law_token_programs(token_of(self@.tokens, self.quote_mint)->0);
            law_swap_data_reads_back(self@, request, user);
        }
        let instruction = swap_ix(&accounts, request.amount, 0, side);
        assert(accounts == swap_accounts(self@, user));
        assert(instruction.accounts@ == instruction@.accounts);
        assert(instruction.data@ == instruction@.data);
        assert(instruction.accounts@[6].pubkey == (if side == 0 {
            taker_ata_base
        } else {
            taker_ata_quote
        }));
        assert(instruction.accounts@[7].pubkey == (if side == 0 {
            taker_ata_quote
        } else {
            taker_ata_base
        }));
        Ok(instruction)
    }

    /// See [`QuayVenue::build_swap_ix`].
    pub fn generate_swap_instruction(&self, request: QuoteRequest, user: Pubkey) -> (built: Result<
        Instruction,
        TradingVenueError,
    >)
        ensures
            match built {
                Ok(instruction) => {
                    &&& swap_error(self@, request) is None
                    &&& instruction@ == swap_answer(self@, request, user)
                },
                Err(error) => swap_error(self@, request) == Some(error),
            },
            built matches Ok(instruction) ==> {
                &&& instruction.program_id == self.program_id
                &&& instruction.accounts@.len() >= 13
                &&& token_of(self.tokens@, request.input_mint)->0.program == TokenProgram::SplToken
                    ==> instruction.accounts@[6].pubkey@ == program_address(
                    seq![user@, spl_token_bytes(), request.input_mint@],
                    associated_token_bytes(),
                )
                &&& token_of(self.tokens@, request.input_mint)->0.program == TokenProgram::Token2022
                    ==> instruction.accounts@[6].pubkey@ == program_address(
                    seq![user@, token_2022_bytes(), request.input_mint@],
                    associated_token_bytes(),
                )
                &&& token_of(self.tokens@, request.output_mint)->0.program == TokenProgram::SplToken
                    ==> instruction.accounts@[7].pubkey@ == program_address(
                    seq![user@, spl_token_bytes(), request.output_mint@],
                    associated_token_bytes(),
                )
                &&& token_of(self.tokens@, request.output_mint)->0.program == TokenProgram::Token2022
                    ==> instruction.accounts@[7].pubkey@ == program_address(
                    seq![user@, token_2022_bytes(), request.output_mint@],
                    associated_token_bytes(),
                )
                &&& le_value(instruction.data@.subrange(1, 9)) == request.amount
                &&& le_value(instruction.data@.subrange(9, 17)) == 0
            },
    {
        self.build_swap_ix(request, user)
    }

    /// The keys to put into an address lookup table for this venue: all that
    /// every swap touches but the taker and its two token accounts.
    pub fn get_lookup_table_keys(&self) -> (keys: Result<Vec<Pubkey>, TradingVenueError>)
        ensures
            keys matches Ok(keys) && keys@ == lookup_keys(self@),
    {
        let instructions_sysvar = instructions_sysvar_id();
        let mut keys: Vec<Pubkey> = vec![
            self.program_id,
            self.global_config_key,
            self.strategy_key,
            self.mm_key,
            self.quotes_key,
            self.vault_base_key,
            self.vault_quote_key,
            self.base_mint,
            self.quote_mint,
            instructions_sysvar,
        ];
        let mut dependencies = self.program_dependencies();
        keys.append(&mut dependencies);
        assert(keys@ =~= lookup_keys(self@));
        Ok(keys)
    }
}

/// The lookup table covers every account of every swap instruction that the
/// venue builds, whoever the user is, but the user and its two token
/// accounts; and it holds the program that the instruction calls.
pub proof fn law_lookup_table_covers_swaps(venue: VenueState, request: QuoteRequest, user: Pubkey)
    requires
        venue.well_formed(),
        swap_error(venue, request) is None,
    ensures
        ({
            let instruction = swap_answer(venue, request, user);
            let accounts = swap_accounts(venue, user);
            &&& lookup_keys(venue).contains(instruction.program_id)
            &&& forall|i: int|
                0 <= i < instruction.accounts.len() ==> {
                    let key = (#[trigger] instruction.accounts[i]).pubkey;
                    ||| key == user
                    ||| key == accounts.taker_ata_base
                    ||| key == accounts.taker_ata_quote
                    ||| lookup_keys(venue).contains(key)
                }
        }),
{
    let keys = lookup_keys(venue);
    let instruction = swap_answer(venue, request, user);
    assert(keys[0] == venue.program_id);
    assert(keys[1] == venue.global_config_key);
    assert(keys[2] == venue.strategy_key);
    assert(keys[3] == venue.mm_key);
    assert(keys[4] == venue.quotes_key);
    assert(keys[5] == venue.vault_base_key);
    assert(keys[6] == venue.vault_quote_key);
    assert(keys[7] == venue.base_mint);
    assert(keys[8] == venue.quote_mint);
    assert(keys[9] == key_of(instructions_sysvar_bytes()));
    assert(keys[10] == key_of(spl_token_bytes()));
    assert(keys[11] == key_of(token_2022_bytes()));
}

/// Every venue's lookup table has ten venue accounts and three programs.
pub proof fn law_lookup_table_size(venue: VenueState)
    ensures
        lookup_keys(venue).len() == 13,
{
}

/// Quoting and swapping agree: what a quote turns down for the kind of swap,
/// the mints or missing metadata, building the instruction turns down with
/// the same error, and a request that can be quoted can be built.
pub proof fn law_swap_follows_quote(venue: VenueState, request: QuoteRequest)
    ensures
        quote_error(venue, request) is None ==> swap_error(venue, request) is None,
        venue.initialized() ==> swap_error(venue, request) == quote_error(venue, request),
        swap_error(venue, request) is Some ==> quote_error(venue, request) is Some,
{
}

/// The instruction's data carries the requested amount, a minimum output of
/// zero and the side, each where the program reads it.
pub proof fn law_swap_data_reads_back(venue: VenueState, request: QuoteRequest, user: Pubkey)
    requires
        swap_error(venue, request) is None,
    ensures
        ({
            let data = swap_answer(venue, request, user).data;
            &&& data.len() == 18
            &&& data[0] == crate::sdk::DISC_SWAP
            &&& le_value(data.subrange(1, 9)) == request.amount
            &&& le_value(data.subrange(9, 17)) == 0
            &&& Some(data[17]) == side_of(venue, request.input_mint, request.output_mint)
        }),
{
    lemma_pow_256_8();
    lemma_le_roundtrip(request.amount as int, 8);
    lemma_le_roundtrip(0, 8);
    let data = swap_answer(venue, request, user).data;
    assert(data.subrange(1, 9) =~= le_bytes(request.amount as int, 8));
    assert(data.subrange(9, 17) =~= le_bytes(0, 8));
}

/// The taker is the only signer, and neither mint, program, sysvar, quotes
/// account nor config is writable.
pub proof fn law_swap_signers(venue: VenueState, request: QuoteRequest, user: Pubkey, i: int)
    requires
        swap_error(venue, request) is None,
        0 <= i < swap_answer(venue, request, user).accounts.len(),
    ensures
        ({
            let meta = swap_answer(venue, request, user).accounts[i];
            &&& meta.is_signer <==> i == 8
            &&& meta.is_signer ==> meta.pubkey == user
            &&& meta.is_writable <==> i == 1 || i == 2 || 4 <= i <= 8
        }),
{
}

/// A mint's token program is the one that its metadata names.
pub proof fn law_token_programs(token: TokenInfo)
    ensures
        token.program == TokenProgram::SplToken ==> token_program_key(token)@ == spl_token_bytes(),
        token.program == TokenProgram::Token2022 ==> token_program_key(token)@
            == token_2022_bytes(),
{
    lemma_key_bytes(spl_token_bytes());
    lemma_key_bytes(token_2022_bytes());
}

/// The taker pays from, and is paid into, its own associated token accounts.
///
/// `paid` and `received` are the first metadata entries of the input and the
/// output mint. Account 6 is the address of seeds `[user, program, mint]` under
/// the associated-token program for the input mint and the token program that
/// its metadata names; account 7 is the same for the output mint.
pub proof fn law_swap_moves_the_takers_tokens(
    venue: VenueState,
    request: QuoteRequest,
    user: Pubkey,
    paid: int,
    received: int,
)
    requires
        swap_error(venue, request) is None,
        0 <= paid < venue.tokens.len(),
        venue.tokens[paid].pubkey == request.input_mint,
        forall|k: int| 0 <= k < paid ==> venue.tokens[k].pubkey != request.input_mint,
        0 <= received < venue.tokens.len(),
        venue.tokens[received].pubkey == request.output_mint,
        forall|k: int| 0 <= k < received ==> venue.tokens[k].pubkey != request.output_mint,
    ensures
        ({
            let accounts = swap_answer(venue, request, user).accounts;
            let program_in = match venue.tokens[paid].program {
                TokenProgram::SplToken => spl_token_bytes(),
                TokenProgram::Token2022 => token_2022_bytes(),
            };
            let program_out = match venue.tokens[received].program {
                TokenProgram::SplToken => spl_token_bytes(),
                TokenProgram::Token2022 => token_2022_bytes(),
            };
            &&& accounts[6].pubkey == key_of(
                program_address(
                    seq![user@, program_in, request.input_mint@],
                    associated_token_bytes(),
                ),
            )
            &&& accounts[7].pubkey == key_of(
                program_address(
                    seq![user@, program_out, request.output_mint@],
                    associated_token_bytes(),
                ),
            )
        }),
{
    law_token_is_the_first(venue.tokens, request.input_mint, paid);
    law_token_is_the_first(venue.tokens, request.output_mint, received);
    law_token_programs(venue.tokens[paid]);
    law_token_programs(venue.tokens[received]);
}

/// Every other account of a swap, position by position: the config and the
/// vaults are derived from the venue's program, the vault of the input mint
/// comes before that of the output mint, and so do the mints; the token
/// program of the base mint comes first, that of the quote mint follows where
/// it is another one.
pub proof fn law_swap_account_positions(
    venue: VenueState,
    request: QuoteRequest,
    user: Pubkey,
    base: int,
    quote: int,
)
    requires
        swap_error(venue, request) is None,
        0 <= base < venue.tokens.len(),
        venue.tokens[base].pubkey == venue.base_mint,
        forall|k: int| 0 <= k < base ==> venue.tokens[k].pubkey != venue.base_mint,
        0 <= quote < venue.tokens.len(),
        venue.tokens[quote].pubkey == venue.quote_mint,
        forall|k: int| 0 <= k < quote ==> venue.tokens[k].pubkey != venue.quote_mint,
    ensures
        ({
            let instruction = swap_answer(venue, request, user);
            let keys = instruction.accounts.map_values(|meta: AccountMeta| meta.pubkey);
            let same_program = venue.tokens[base].program == venue.tokens[quote].program;
            &&& instruction.program_id == venue.program_id
            &&& keys[0] == key_of(program_address(seq![seed_global()], venue.program_id@))
            &&& keys[1] == venue.strategy_key
            &&& keys[2] == venue.mm_key
            &&& keys[3] == venue.quotes_key
            &&& keys[4] == key_of(
                program_address(
                    seq![seed_vault(), venue.mm_key@, request.input_mint@],
                    venue.program_id@,
                ),
            )
            &&& keys[5] == key_of(
                program_address(
                    seq![seed_vault(), venue.mm_key@, request.output_mint@],
                    venue.program_id@,
                ),
            )
            &&& keys[8] == user
            &&& keys[9] == request.input_mint
            &&& keys[10] == request.output_mint
            &&& keys[11]@ == instructions_sysvar_bytes()
            &&& keys[12]@ == match venue.tokens[base].program {
                TokenProgram::SplToken => spl_token_bytes(),
                TokenProgram::Token2022 => token_2022_bytes(),
            }
            &&& same_program ==> keys.len() == 13
            &&& !same_program ==> keys.len() == 14 && keys[13]@ == match venue.tokens[quote].program {
                TokenProgram::SplToken => spl_token_bytes(),
                TokenProgram::Token2022 => token_2022_bytes(),
            }
        }),
{
    law_token_is_the_first(venue.tokens, venue.base_mint, base);
    law_token_is_the_first(venue.tokens, venue.quote_mint, quote);
    law_token_programs(venue.tokens[base]);
    law_token_programs(venue.tokens[quote]);
    lemma_key_bytes(instructions_sysvar_bytes());
    assert(spl_token_bytes()[4] != token_2022_bytes()[4]);
}

/// The side byte of a swap says which mint goes in: 0 where base is sold, 1
/// where it is bought.
pub proof fn law_swap_side_byte(venue: VenueState, request: QuoteRequest, user: Pubkey)
    requires
        swap_error(venue, request) is None,
        venue.base_mint != venue.quote_mint,
    ensures
        ({
            let data = swap_answer(venue, request, user).data;
            &&& data.len() == 18
            &&& data[0] == 0x20
            &&& request.input_mint == venue.base_mint ==> data[17] == 0
            &&& request.input_mint == venue.quote_mint ==> data[17] == 1
        }),
{
    law_swap_data_reads_back(venue, request, user);
}

/// Which error a swap request meets: each one exactly where its own reason
/// holds and no earlier one does. The routing gate plays no part.
pub proof fn law_swap_refusals(venue: VenueState, request: QuoteRequest)
    ensures
        ({
            let exact_out = request.swap_type == SwapType::ExactOut;
            let off_pair = !(request.input_mint == venue.base_mint && request.output_mint
                == venue.quote_mint) && !(request.input_mint == venue.quote_mint
                && request.output_mint == venue.base_mint);
            let base_known = exists|i: int|
                0 <= i < venue.tokens.len() && (#[trigger] venue.tokens[i]).pubkey
                    == venue.base_mint;
            let quote_known = exists|i: int|
                0 <= i < venue.tokens.len() && (#[trigger] venue.tokens[i]).pubkey
                    == venue.quote_mint;
            let error = swap_error(venue, request);
            &&& exact_out <==> error == Some(TradingVenueError::ExactOutNotSupported)
            &&& !exact_out && off_pair <==> error == Some(
                TradingVenueError::InvalidMint(request.input_mint),
            )
            &&& !exact_out && !off_pair && !base_known <==> error == Some(
                TradingVenueError::MissingState(Leg::Base),
            )
            &&& !exact_out && !off_pair && base_known && !quote_known <==> error == Some(
                TradingVenueError::MissingState(Leg::Quote),
            )
            &&& !exact_out && !off_pair && base_known && quote_known <==> error is None
        }),
{
    law_token_is_there_iff_named(venue.tokens, venue.base_mint);
    law_token_is_there_iff_named(venue.tokens, venue.quote_mint);
}

/// The lookup table holds each of the venue's own accounts, in a fixed order,
/// then the instructions sysvar, the two token programs and the system
/// program.
pub proof fn law_lookup_table_contents(venue: VenueState)
    ensures
        ({
            let keys = lookup_keys(venue);
            &&& keys.len() == 13
            &&& keys[0] == venue.program_id
            &&& keys[1] == venue.global_config_key
            &&& keys[2] == venue.strategy_key
            &&& keys[3] == venue.mm_key
            &&& keys[4] == venue.quotes_key
            &&& keys[5] == venue.vault_base_key
            &&& keys[6] == venue.vault_quote_key
            &&& keys[7] == venue.base_mint
            &&& keys[8] == venue.quote_mint
            &&& keys[9]@ == instructions_sysvar_bytes()
            &&& keys[10]@ == spl_token_bytes()
            &&& keys[11]@ == token_2022_bytes()
            &&& keys[12]@ == system_program_bytes()
        }),
{
    lemma_key_bytes(instructions_sysvar_bytes());
    lemma_key_bytes(spl_token_bytes());
    lemma_key_bytes(token_2022_bytes());
    lemma_key_bytes(system_program_bytes());
}

} // verus!
