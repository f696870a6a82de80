//! Pricing.
//!
//! An exact-in swap is priced by running the strategy's curve through the
//! SDK's simulator, the same math as the on-chain swap. The reported price is
//! the marginal price at the requested size, by finite difference.

use vstd::prelude::*;

use crate::bytes::{le_value, lemma_le_value_bound, lemma_pow_256_4};
use crate::pubkey::Pubkey;
use crate::sdk::{
    blobs, check_extents, extents_fit, simulate_swap, simulated_output, SwapInputs, SwapInputsView,
    SIDE_BUY_BASE, SIDE_SELL_BASE, TITAN_ROUTER_ID,
};
use crate::types::{Leg, Price, QuoteRequest, QuoteResult, SwapType, TokenInfo, TradingVenueError};
use crate::venue::{QuayVenue, VenueState};

verus! {

/// Invocation depth of a routed swap: the router, at the top level, calls
/// into the program.
pub const ROUTED_IX_DEPTH: u8 = 2;

/// The side of a swap between these mints, if they are the venue's pair.
pub open spec fn side_of(venue: VenueState, input_mint: Pubkey, output_mint: Pubkey) -> Option<
    u8,
> {
    if input_mint == venue.base_mint && output_mint == venue.quote_mint {
        Some(SIDE_SELL_BASE)
    } else if input_mint == venue.quote_mint && output_mint == venue.base_mint {
        Some(SIDE_BUY_BASE)
    } else {
        None
    }
}

/// The first entry of `tokens` for `mint`.
pub open spec fn token_of(tokens: Seq<TokenInfo>, mint: Pubkey) -> Option<TokenInfo>
    decreases tokens.len(),
{
    if tokens.len() == 0 {
        None
    } else if tokens[0].pubkey == mint {
        Some(tokens[0])
    } else {
        token_of(tokens.drop_first(), mint)
    }
}

/// A token's decimals as the byte that the simulator takes: the low eight
/// bits of the number.
pub open spec fn decimals_byte(token: TokenInfo) -> u8 {
    (token.decimals as int % 256) as u8
}

/// The output atoms for a swap of `amount` input atoms under the venue's
/// current snapshot, as a swap routed by Titan, or `None` where that size is
/// not quotable: where the simulator refuses it, or where the accounts declare
/// more bytes than a `usize` counts.
pub open spec fn swap_output(
    venue: VenueState,
    side: u8,
    base_decimals: u8,
    quote_decimals: u8,
    amount: u64,
) -> Option<u64> {
    if extents_fit(venue.strategy_data, venue.mm_data) {
        simulated_output(
            SwapInputsView {
                strategy_data: venue.strategy_data,
                market_maker_data: venue.mm_data,
                quotes_data: venue.quotes_data,
                global_config_data: venue.global_config_data,
                current_slot: venue.current_slot,
                current_unix_sec: venue.current_unix_sec,
                side,
                amount_in: amount,
                min_amount_out: 0,
                base_decimals,
                quote_decimals,
                ix_depth: ROUTED_IX_DEPTH,
                entrypoint_program: Pubkey { bytes: TITAN_ROUTER_ID },
                last_restart_slot: 0,
                ext_keys: venue.ext_keys,
                ext_data: venue.ext_data,
            },
        )
    } else {
        None
    }
}

/// The market maker's probe size for a side's input.
pub open spec fn probe_of(venue: VenueState, side: u8) -> u64 {
    if side == SIDE_SELL_BASE {
        venue.price_probe_base
    } else {
        venue.price_probe_quote
    }
}

/// The answer to a request for the spot rate, where `out` is the output for
/// the probe size: their ratio, or zero where the curve cannot fill it.
pub open spec fn spot_answer(request: QuoteRequest, probe: u64, out: Option<u64>) -> QuoteResult {
    QuoteResult {
        input_mint: request.input_mint,
        output_mint: request.output_mint,
        amount: 0,
        expected_output: 0,
        not_enough_liquidity: false,
        price: match out {
            Some(out) => Price { numerator: out, denominator: probe },
            None => Price { numerator: 0, denominator: 1 },
        },
    }
}

/// The marginal price at `amount`: the chord over one step upwards where the
/// output grows over it, else the chord over one step downwards where it
/// does, else the average rate.
pub open spec fn chord_price(
    amount: u64,
    step: u64,
    out: u64,
    up: Option<u64>,
    down: Option<u64>,
) -> Price {
    if up is Some && up->0 > out {
        Price { numerator: (up->0 - out) as u64, denominator: step }
    } else if down is Some && down->0 < out {
        Price { numerator: (out - down->0) as u64, denominator: step }
    } else {
        Price { numerator: out, denominator: amount }
    }
}

/// The answer to a request for a size, where `out`, `up` and `down` are the
/// outputs for that size and for one `step` above and below it.
pub open spec fn sized_answer(
    request: QuoteRequest,
    step: u64,
    out: Option<u64>,
    up: Option<u64>,
    down: Option<u64>,
) -> QuoteResult {
    QuoteResult {
        input_mint: request.input_mint,
        output_mint: request.output_mint,
        amount: request.amount,
        expected_output: match out {
            Some(out) => out,
            None => 0,
        },
        not_enough_liquidity: out is None,
        price: match out {
            Some(out) => chord_price(request.amount, step, out, up, down),
            None => Price { numerator: 0, denominator: 1 },
        },
    }
}

/// Why the venue turns a quote request down, if it does.
pub open spec fn quote_error(venue: VenueState, request: QuoteRequest) -> Option<
    TradingVenueError,
> {
    if request.swap_type == SwapType::ExactOut {
        Some(TradingVenueError::ExactOutNotSupported)
    } else if side_of(venue, request.input_mint, request.output_mint) is None {
        Some(TradingVenueError::InvalidMint(request.input_mint))
    } else if !venue.initialized() {
        Some(TradingVenueError::NotInitialized(venue.strategy_key))
    } else if token_of(venue.tokens, venue.base_mint) is None {
        Some(TradingVenueError::MissingState(Leg::Base))
    } else if token_of(venue.tokens, venue.quote_mint) is None {
        Some(TradingVenueError::MissingState(Leg::Quote))
    } else {
        None
    }
}

/// `a + b`, capped at the largest `u64`.
pub open spec fn capped_sum(a: u64, b: u64) -> u64 {
    if a + b > u64::MAX {
        u64::MAX
    } else {
        (a + b) as u64
    }
}

/// `a - b`, floored at zero.
pub open spec fn floored_difference(a: u64, b: u64) -> u64 {
    if a < b {
        0
    } else {
        (a - b) as u64
    }
}

/// The size of a marginal-price step: the probe size, at least one atom.
pub open spec fn step_of(probe: u64) -> u64 {
    if probe == 0 {
        1
    } else {
        probe
    }
}

/// The venue's answer to a request that it does not turn down.
pub open spec fn quote_answer(venue: VenueState, request: QuoteRequest) -> QuoteResult
    recommends
        quote_error(venue, request) is None,
{
    let side = side_of(venue, request.input_mint, request.output_mint)->0;
    let base = decimals_byte(token_of(venue.tokens, venue.base_mint)->0);
    let quote = decimals_byte(token_of(venue.tokens, venue.quote_mint)->0);
    let probe = probe_of(venue, side);
    if request.amount == 0 {
        spot_answer(request, probe, swap_output(venue, side, base, quote, probe))
    } else {
        let step = step_of(probe);
        let above = capped_sum(request.amount, step);
        let below = floored_difference(request.amount, step);
        sized_answer(
            request,
            step,
            swap_output(venue, side, base, quote, request.amount),
            swap_output(venue, side, base, quote, above),
            swap_output(venue, side, base, quote, below),
        )
    }
}

/// What a router can rely on in every answer: it echoes the request; a filled
/// size has a positive output at a positive, finite price; a refused size, or
/// one of zero, has no output; and only a requested size can be refused.
pub open spec fn priced_soundly(request: QuoteRequest, quote: QuoteResult) -> bool {
    &&& quote.input_mint == request.input_mint
    &&& quote.output_mint == request.output_mint
    &&& quote.amount == request.amount
    &&& request.amount > 0 && !quote.not_enough_liquidity ==> {
        &&& quote.expected_output > 0
        &&& quote.price.numerator > 0
        &&& quote.price.denominator > 0
    }
    &&& quote.not_enough_liquidity ==> {
        &&& request.amount > 0
        &&& quote.expected_output == 0
        &&& quote.price.numerator == 0
        &&& quote.price.denominator > 0
    }
    &&& request.amount == 0 ==> quote.expected_output == 0
}

/// Answers a request for the spot rate from the output for the probe size.
pub fn spot_quote(request: &QuoteRequest, probe: u64, out: Option<u64>) -> (answer: QuoteResult)
    ensures
        answer == spot_answer(*request, probe, out),
{
    let price = match out {
        Some(out) => Price { numerator: out, denominator: probe },
        None => Price { numerator: 0, denominator: 1 },
    };
    QuoteResult {
        input_mint: request.input_mint,
        output_mint: request.output_mint,
        amount: 0,
        expected_output: 0,
        not_enough_liquidity: false,
        price,
    }
}

/// The marginal price from the outputs for a size and for one step above and
/// below it.
pub fn marginal_price(
    amount: u64,
    step: u64,
    out: u64,
    up: Option<u64>,
    down: Option<u64>,
) -> (price: Price)
    ensures
        price == chord_price(amount, step, out, up, down),
{
    if let Some(up) = up {
        if up > out {
            return Price { numerator: up - out, denominator: step };
        }
    }
    if let Some(down) = down {
        if out > down {
            return Price { numerator: out - down, denominator: step };
        }
    }
    Price { numerator: out, denominator: amount }
}

/// Answers a request for a size from the outputs for it and for one step
/// above and below it.
pub fn sized_quote(
    request: &QuoteRequest,
    step: u64,
    out: Option<u64>,
    up: Option<u64>,
    down: Option<u64>,
) -> (answer: QuoteResult)
    ensures
        answer == sized_answer(*request, step, out, up, down),
{
    match out {
        None => QuoteResult {
            input_mint: request.input_mint,
            output_mint: request.output_mint,
            amount: request.amount,
            expected_output: 0,
            not_enough_liquidity: true,
            price: Price { numerator: 0, denominator: 1 },
        },
        Some(out) => QuoteResult {
            input_mint: request.input_mint,
            output_mint: request.output_mint,
            amount: request.amount,
            expected_output: out,
            // The simulator prices the full amount or refuses it.
            not_enough_liquidity: false,
            price: marginal_price(request.amount, step, out, up, down),
        },
    }
}

impl QuayVenue {
    /// The `side` byte of a swap between these mints: 0 sells base, 1 buys it.
    pub fn swap_side(&self, input_mint: &Pubkey, output_mint: &Pubkey) -> (side: Option<u8>)
        ensures
            side == side_of(self@, *input_mint, *output_mint),
    {
        if *input_mint == self.base_mint && *output_mint == self.quote_mint {
            Some(SIDE_SELL_BASE)
        } else if *input_mint == self.quote_mint && *output_mint == self.base_mint {
            Some(SIDE_BUY_BASE)
        } else {
            None
        }
    }

    /// The metadata of one of the strategy's mints.
    pub fn token_info_for(&self, mint: &Pubkey) -> (token: Option<TokenInfo>)
        ensures
            token == token_of(self@.tokens, *mint),
    {
        let mut i: usize = 0;
        assert(self.tokens@.skip(0) =~= self.tokens@);
        while i < self.tokens.len()
            invariant
                i <= self.tokens@.len(),
                token_of(self.tokens@, *mint) == token_of(self.tokens@.skip(i as int), *mint),
            decreases self.tokens@.len() - i,
        {
            assert(self.tokens@.skip(i as int).drop_first() =~= self.tokens@.skip(i + 1));
            if self.tokens[i].pubkey == *mint {
                return Some(self.tokens[i]);
            }
            i = i + 1;
        }
        None
    }

    /// The output atoms for a swap of `amount` input atoms, or `None` where
    /// the curve refuses that size.
    fn simulate_out(
        &self,
        side: u8,
        base_decimals: u8,
        quote_decimals: u8,
        amount: u64,
    ) -> (out: Option<u64>)
        requires
            self@.has_all_state(),
        ensures
            out == swap_output(self@, side, base_decimals, quote_decimals, amount),
            out matches Some(out) ==> out > 0,
    {
        if !check_extents(self.strategy_data.as_slice(), self.mm_data.as_slice()) {
            return None;
        }
        let inputs = SwapInputs {
            strategy_data: &self.strategy_data,
            market_maker_data: &self.mm_data,
            quotes_data: &self.quotes_data,
            global_config_data: &self.global_config_data,
            current_slot: self.current_slot,
            current_unix_sec: self.current_unix_sec,
            side,
            amount_in: amount,
            min_amount_out: 0,
            base_decimals,
            quote_decimals,
            ix_depth: ROUTED_IX_DEPTH,
            entrypoint_program: Pubkey { bytes: TITAN_ROUTER_ID },
            last_restart_slot: 0,
            ext_keys: &self.ext_keys,
            ext_data: &self.ext_data,
        };
        simulate_swap(&inputs)
    }

    /// Prices an exact-in swap.
    pub fn compute_quote(&self, request: QuoteRequest) -> (quote: Result<
        QuoteResult,
        TradingVenueError,
    >)
        ensures
            quote == match quote_error(self@, request) {
                Some(error) => Err::<QuoteResult, TradingVenueError>(error),
                None => Ok(quote_answer(self@, request)),
            },
            quote matches Ok(quote) ==> priced_soundly(request, quote),
            quote matches Ok(answer) ==> forall|at: SwapInputsView|
                {
                    &&& at.strategy_data == self.strategy_data@
                    &&& at.market_maker_data == self.mm_data@
                    &&& at.quotes_data == self.quotes_data@
                    &&& at.global_config_data == self.global_config_data@
                    &&& at.current_slot == self.current_slot
                    &&& at.current_unix_sec == self.current_unix_sec
                    &&& at.side == (if request.input_mint == self.base_mint {
                        0u8
                    } else {
                        1u8
                    })
                    &&& at.amount_in == (if request.amount > 0 {
                        request.amount
                    } else if request.input_mint == self.base_mint {
                        self.price_probe_base
                    } else {
                        self.price_probe_quote
                    })
                    &&& at.min_amount_out == 0
                    &&& at.base_decimals == decimals_byte(
                        token_of(self.tokens@, self.base_mint)->0,
                    )
                    &&& at.quote_decimals == decimals_byte(
                        token_of(self.tokens@, self.quote_mint)->0,
                    )
                    &&& at.ix_depth == 2
                    &&& at.entrypoint_program.bytes == TITAN_ROUTER_ID
                    &&& at.last_restart_slot == 0
                    &&& at.ext_keys == self.ext_keys@
                    &&& at.ext_data == blobs(self.ext_data@)
                    &&& extents_fit(self.strategy_data@, self.mm_data@)
                } ==> match #[trigger] simulated_output(at) {
                    Some(out) => {
                        &&& !answer.not_enough_liquidity
                        &&& request.amount > 0 ==> answer.expected_output == out
                        &&& request.amount == 0 ==> answer.price.numerator == out
                            && answer.price.denominator == at.amount_in
                    },
                    None => {
                        &&& answer.not_enough_liquidity <==> request.amount > 0
                        &&& answer.expected_output == 0
                        &&& answer.price.numerator == 0
                    },
                },
    {
        // The curve is a forward pricer with no inverse.
        if let SwapType::ExactOut = request.swap_type {
            return Err(TradingVenueError::ExactOutNotSupported);
        }
        let side = match self.swap_side(&request.input_mint, &request.output_mint) {
            Some(side) => side,
            None => return Err(TradingVenueError::InvalidMint(request.input_mint)),
        };
        if !self.initialized() {
            return Err(TradingVenueError::NotInitialized(self.strategy_key));
        }
        let base = match self.token_info_for(&self.base_mint) {
            Some(token) => token,
            None => return Err(TradingVenueError::MissingState(Leg::Base)),
        };
        let quote = match self.token_info_for(&self.quote_mint) {
            Some(token) => token,
            None => return Err(TradingVenueError::MissingState(Leg::Quote)),
        };
        let base_decimals = low_byte(base.decimals);
        let quote_decimals = low_byte(quote.decimals);
        let probe: u64 = if side == SIDE_SELL_BASE {
            self.price_probe_base
        } else {
            self.price_probe_quote
        };

        if request.amount == 0 {
            let out = self.simulate_out(side, base_decimals, quote_decimals, probe);
            return Ok(spot_quote(&request, probe, out));
        }
        let amount = request.amount;
        let step: u64 = if probe == 0 {
            1
        } else {
            probe
        };
        let out = match self.simulate_out(side, base_decimals, quote_decimals, amount) {
            Some(out) => out,
            None => return Ok(sized_quote(&request, step, None, None, None)),
        };
        // Forward first; backward only where the output does not grow, near
        // the inventory bound.
        let up = self.simulate_out(
            side,
            base_decimals,
            quote_decimals,
            amount.saturating_add(step),
        );
        let grows = match up {
            Some(up) => up > out,
            None => false,
        };
        let down = if grows {
            None
        } else {
            self.simulate_out(side, base_decimals, quote_decimals, amount.saturating_sub(step))
        };
        Ok(sized_quote(&request, step, Some(out), up, down))
    }

    /// See [`QuayVenue::compute_quote`].
    pub fn quote(&self, request: QuoteRequest) -> (quote: Result<QuoteResult, TradingVenueError>)
        ensures
            quote == match quote_error(self@, request) {
                Some(error) => Err::<QuoteResult, TradingVenueError>(error),
                None => Ok(quote_answer(self@, request)),
            },
            quote matches Ok(quote) ==> priced_soundly(request, quote),
            quote matches Ok(answer) ==> forall|at: SwapInputsView|
                {
                    &&& at.strategy_data == self.strategy_data@
                    &&& at.market_maker_data == self.mm_data@
                    &&& at.quotes_data == self.quotes_data@
                    &&& at.global_config_data == self.global_config_data@
                    &&& at.current_slot == self.current_slot
                    &&& at.current_unix_sec == self.current_unix_sec
                    &&& at.side == (if request.input_mint == self.base_mint {
                        0u8
                    } else {
                        1u8
                    })
                    &&& at.amount_in == (if request.amount > 0 {
                        request.amount
                    } else if request.input_mint == self.base_mint {
                        self.price_probe_base
                    } else {
                        self.price_probe_quote
                    })
                    &&& at.min_amount_out == 0
                    &&& at.base_decimals == decimals_byte(
                        token_of(self.tokens@, self.base_mint)->0,
                    )
                    &&& at.quote_decimals == decimals_byte(
                        token_of(self.tokens@, self.quote_mint)->0,
                    )
                    &&& at.ix_depth == 2
                    &&& at.entrypoint_program.bytes == TITAN_ROUTER_ID
                    &&& at.last_restart_slot == 0
                    &&& at.ext_keys == self.ext_keys@
                    &&& at.ext_data == blobs(self.ext_data@)
                    &&& extents_fit(self.strategy_data@, self.mm_data@)
                } ==> match #[trigger] simulated_output(at) {
                    Some(out) => {
                        &&& !answer.not_enough_liquidity
                        &&& request.amount > 0 ==> answer.expected_output == out
                        &&& request.amount == 0 ==> answer.price.numerator == out
                            && answer.price.denominator == at.amount_in
                    },
                    None => {
                        &&& answer.not_enough_liquidity <==> request.amount > 0
                        &&& answer.expected_output == 0
                        &&& answer.price.numerator == 0
                    },
                },
    {
        self.compute_quote(request)
    }
}

/// The quote gate is the routing gate: an exact-in request on the venue's
/// pair is refused as not initialized exactly where the venue is not.
pub proof fn law_quote_gate_is_routing_gate(venue: VenueState, request: QuoteRequest)
    requires
        request.swap_type == SwapType::ExactIn,
        side_of(venue, request.input_mint, request.output_mint) is Some,
    ensures
        quote_error(venue, request) == Some(
            TradingVenueError::NotInitialized(venue.strategy_key),
        ) <==> !venue.initialized(),
{
}

/// A venue that was refreshed with metadata for its two mints turns no exact-in
/// request on its pair down while it is routable.
pub proof fn law_routable_venue_quotes(venue: VenueState, request: QuoteRequest)
    requires
        venue.initialized(),
        venue.tokens.len() == 2,
        venue.tokens[0].pubkey == venue.base_mint,
        venue.tokens[1].pubkey == venue.quote_mint,
        request.swap_type == SwapType::ExactIn,
        side_of(venue, request.input_mint, request.output_mint) is Some,
    ensures
        quote_error(venue, request) is None,
{
    reveal_with_fuel(token_of, 3);
}

/// Exchanging input and output mint turns a sale of base into a purchase and
/// the other way round, as long as the two mints differ.
pub proof fn law_side_flips(venue: VenueState, a: Pubkey, b: Pubkey)
    requires
        venue.base_mint != venue.quote_mint,
    ensures
        side_of(venue, a, b) == Some(SIDE_SELL_BASE) <==> side_of(venue, b, a) == Some(
            SIDE_BUY_BASE,
        ),
        side_of(venue, a, b) is None <==> side_of(venue, b, a) is None,
{
}

/// A mint's metadata is the first entry that names the mint.
pub proof fn law_token_is_the_first(tokens: Seq<TokenInfo>, mint: Pubkey, i: int)
    requires
        0 <= i < tokens.len(),
        tokens[i].pubkey == mint,
        forall|k: int| 0 <= k < i ==> tokens[k].pubkey != mint,
    ensures
        token_of(tokens, mint) == Some(tokens[i]),
    decreases i,
{
    if i > 0 {
        let rest = tokens.drop_first();
        assert(forall|k: int| 0 <= k < i - 1 ==> rest[k] == tokens[k + 1]);
        law_token_is_the_first(rest, mint, i - 1);
    }
}

/// A mint that no entry names has no metadata, and a mint that one names has
/// some.
pub proof fn law_token_is_there_iff_named(tokens: Seq<TokenInfo>, mint: Pubkey)
    ensures
        token_of(tokens, mint) is Some <==> exists|i: int|
            0 <= i < tokens.len() && (#[trigger] tokens[i]).pubkey == mint,
    decreases tokens.len(),
{
    if tokens.len() > 0 {
        let rest = tokens.drop_first();
        law_token_is_there_iff_named(rest, mint);
        if exists|i: int| 0 <= i < rest.len() && (#[trigger] rest[i]).pubkey == mint {
            let i = choose|i: int| 0 <= i < rest.len() && (#[trigger] rest[i]).pubkey == mint;
            assert(tokens[i + 1].pubkey == mint);
        }
        if exists|i: int| 0 <= i < tokens.len() && (#[trigger] tokens[i]).pubkey == mint {
            let i = choose|i: int| 0 <= i < tokens.len() && (#[trigger] tokens[i]).pubkey == mint;
            if i > 0 {
                assert(rest[i - 1].pubkey == mint);
            }
        }
    }
}

/// Base for quote is side 0, quote for base is side 1, and nothing else is a
/// swap of the venue.
pub proof fn law_sides(venue: VenueState, input_mint: Pubkey, output_mint: Pubkey)
    ensures
        side_of(venue, venue.base_mint, venue.quote_mint) == Some(0u8),
        venue.base_mint != venue.quote_mint ==> side_of(venue, venue.quote_mint, venue.base_mint)
            == Some(1u8),
        side_of(venue, input_mint, output_mint) is Some ==> {
            ||| input_mint == venue.base_mint && output_mint == venue.quote_mint
            ||| input_mint == venue.quote_mint && output_mint == venue.base_mint
        },
{
}

/// The declared lengths that the simulator adds up are what the account bytes
/// hold.
proof fn lemma_extents(venue: VenueState)
    requires
        venue.strategy_data.len() >= 256 ==> 256 + le_value(venue.strategy_data.subrange(144, 148))
            + le_value(venue.strategy_data.subrange(148, 152)) <= usize::MAX,
        venue.mm_data.len() >= 64 ==> 64 + 48 * le_value(venue.mm_data.subrange(40, 44))
            <= usize::MAX,
    ensures
        extents_fit(venue.strategy_data, venue.mm_data),
{
    lemma_pow_256_4();
    if venue.strategy_data.len() >= 256 {
        lemma_le_value_bound(venue.strategy_data.subrange(144, 148));
        lemma_le_value_bound(venue.strategy_data.subrange(148, 152));
    }
    if venue.mm_data.len() >= 64 {
        lemma_le_value_bound(venue.mm_data.subrange(40, 44));
    }
}

/// A sized quote is the simulation of the very swap that was asked for.
///
/// `at` is that swap: the full requested amount, on the side of the requested
/// mints, against the cached snapshot, routed by Titan one call deep, with no
/// minimum output. The quote is refused exactly where the simulator refuses
/// `at`, and else expects exactly what it pays. The price is the growth of the
/// simulated output over one probe step (at least one atom) upwards, else
/// over one step downwards, else the average rate.
pub proof fn law_sized_quote_simulates_the_request(
    venue: VenueState,
    request: QuoteRequest,
    base: int,
    quote: int,
    at: SwapInputsView,
)
    requires
        venue.initialized(),
        request.swap_type == SwapType::ExactIn,
        0 <= base < venue.tokens.len(),
        venue.tokens[base].pubkey == venue.base_mint,
        forall|k: int| 0 <= k < base ==> venue.tokens[k].pubkey != venue.base_mint,
        0 <= quote < venue.tokens.len(),
        venue.tokens[quote].pubkey == venue.quote_mint,
        forall|k: int| 0 <= k < quote ==> venue.tokens[k].pubkey != venue.quote_mint,
        venue.strategy_data.len() >= 256 ==> 256 + le_value(venue.strategy_data.subrange(144, 148))
            + le_value(venue.strategy_data.subrange(148, 152)) <= usize::MAX,
        venue.mm_data.len() >= 64 ==> 64 + 48 * le_value(venue.mm_data.subrange(40, 44))
            <= usize::MAX,
        request.amount > 0,
        at.amount_in == request.amount,
        ({
            ||| request.input_mint == venue.base_mint && request.output_mint == venue.quote_mint
                && at.side == 0
            ||| request.input_mint == venue.quote_mint && request.output_mint == venue.base_mint
                && venue.base_mint != venue.quote_mint && at.side == 1
        }),
        at.strategy_data == venue.strategy_data,
        at.market_maker_data == venue.mm_data,
        at.quotes_data == venue.quotes_data,
        at.global_config_data == venue.global_config_data,
        at.current_slot == venue.current_slot,
        at.current_unix_sec == venue.current_unix_sec,
        at.min_amount_out == 0,
        at.base_decimals as int == venue.tokens[base].decimals as int % 256,
        at.quote_decimals as int == venue.tokens[quote].decimals as int % 256,
        at.ix_depth == 2,
        at.entrypoint_program.bytes == TITAN_ROUTER_ID,
        at.last_restart_slot == 0,
        at.ext_keys == venue.ext_keys,
        at.ext_data == venue.ext_data,
    ensures
        ({
            let answer = quote_answer(venue, request);
            let probe = if at.side == 0 {
                venue.price_probe_base
            } else {
                venue.price_probe_quote
            };
            let step: int = if probe > 0 {
                probe as int
            } else {
                1
            };
            let above = if request.amount + step > u64::MAX {
                u64::MAX as int
            } else {
                request.amount + step
            };
            let below = if request.amount < step {
                0
            } else {
                request.amount - step
            };
            let up = simulated_output(SwapInputsView { amount_in: above as u64, ..at });
            let down = simulated_output(SwapInputsView { amount_in: below as u64, ..at });
            &&& quote_error(venue, request) is None
            &&& answer.input_mint == request.input_mint
            &&& answer.output_mint == request.output_mint
            &&& answer.amount == request.amount
            &&& answer.not_enough_liquidity <==> simulated_output(at) is None
            &&& simulated_output(at) is None ==> {
                &&& answer.expected_output == 0
                &&& answer.price.numerator == 0
                &&& answer.price.denominator == 1
            }
            &&& simulated_output(at) matches Some(out) ==> {
                let rises = up is Some && up->0 > out;
                let falls = down is Some && down->0 < out;
                &&& answer.expected_output == out
                &&& rises ==> {
                    &&& out + answer.price.numerator == up->0
                    &&& answer.price.denominator == step
                }
                &&& !rises && falls ==> {
                    &&& down->0 + answer.price.numerator == out
                    &&& answer.price.denominator == step
                }
                &&& !rises && !falls ==> {
                    &&& answer.price.numerator == out
                    &&& answer.price.denominator == request.amount
                }
            }
        }),
{
    law_token_is_the_first(venue.tokens, venue.base_mint, base);
    law_token_is_the_first(venue.tokens, venue.quote_mint, quote);
    lemma_extents(venue);
    assert(at.entrypoint_program == (Pubkey { bytes: TITAN_ROUTER_ID }));
}

/// A spot quote (amount 0) is the simulation of one probe in the direction of
/// the request.
///
/// `at` is that probe: the base probe sold for quote, or the quote probe spent
/// on base, against the cached snapshot. The price is what the simulator pays
/// for it over its size, and zero where it refuses.
pub proof fn law_spot_quote_probes_the_direction(
    venue: VenueState,
    request: QuoteRequest,
    base: int,
    quote: int,
    at: SwapInputsView,
)
    requires
        venue.initialized(),
        request.swap_type == SwapType::ExactIn,
        0 <= base < venue.tokens.len(),
        venue.tokens[base].pubkey == venue.base_mint,
        forall|k: int| 0 <= k < base ==> venue.tokens[k].pubkey != venue.base_mint,
        0 <= quote < venue.tokens.len(),
        venue.tokens[quote].pubkey == venue.quote_mint,
        forall|k: int| 0 <= k < quote ==> venue.tokens[k].pubkey != venue.quote_mint,
        venue.strategy_data.len() >= 256 ==> 256 + le_value(venue.strategy_data.subrange(144, 148))
            + le_value(venue.strategy_data.subrange(148, 152)) <= usize::MAX,
        venue.mm_data.len() >= 64 ==> 64 + 48 * le_value(venue.mm_data.subrange(40, 44))
            <= usize::MAX,
        request.amount == 0,
        ({
            ||| request.input_mint == venue.base_mint && request.output_mint == venue.quote_mint
                && at.side == 0 && at.amount_in == venue.price_probe_base
            ||| request.input_mint == venue.quote_mint && request.output_mint == venue.base_mint
                && venue.base_mint != venue.quote_mint && at.side == 1 && at.amount_in
                == venue.price_probe_quote
        }),
        at.strategy_data == venue.strategy_data,
        at.market_maker_data == venue.mm_data,
        at.quotes_data == venue.quotes_data,
        at.global_config_data == venue.global_config_data,
        at.current_slot == venue.current_slot,
        at.current_unix_sec == venue.current_unix_sec,
        at.min_amount_out == 0,
        at.base_decimals as int == venue.tokens[base].decimals as int % 256,
        at.quote_decimals as int == venue.tokens[quote].decimals as int % 256,
        at.ix_depth == 2,
        at.entrypoint_program.bytes == TITAN_ROUTER_ID,
        at.last_restart_slot == 0,
        at.ext_keys == venue.ext_keys,
        at.ext_data == venue.ext_data,
    ensures
        ({
            let answer = quote_answer(venue, request);
            &&& quote_error(venue, request) is None
            &&& answer.input_mint == request.input_mint
            &&& answer.output_mint == request.output_mint
            &&& answer.amount == 0
            &&& answer.expected_output == 0
            &&& !answer.not_enough_liquidity
            &&& simulated_output(at) matches Some(out) ==> answer.price.numerator == out
                && answer.price.denominator == at.amount_in
            &&& simulated_output(at) is None ==> answer.price.numerator == 0
                && answer.price.denominator == 1
        }),
{
    law_token_is_the_first(venue.tokens, venue.base_mint, base);
    law_token_is_the_first(venue.tokens, venue.quote_mint, quote);
    lemma_extents(venue);
    assert(at.entrypoint_program == (Pubkey { bytes: TITAN_ROUTER_ID }));
}

/// The spot price in a direction is the average rate of a sized quote in that
/// direction at the probe size: its output over its amount.
pub proof fn law_spot_price_is_the_probe_rate(
    venue: VenueState,
    spot: QuoteRequest,
    sized: QuoteRequest,
)
    requires
        quote_error(venue, spot) is None,
        spot.amount == 0,
        sized == (QuoteRequest { amount: sized.amount, ..spot }),
        sized.amount > 0,
        spot.input_mint == venue.base_mint ==> sized.amount == venue.price_probe_base,
        spot.input_mint != venue.base_mint ==> sized.amount == venue.price_probe_quote,
        venue.base_mint != venue.quote_mint,
    ensures
        quote_error(venue, sized) is None,
        ({
            let probed = quote_answer(venue, spot);
            let filled = quote_answer(venue, sized);
            &&& filled.not_enough_liquidity ==> probed.price.numerator == 0
            &&& !filled.not_enough_liquidity ==> {
                &&& probed.price.numerator == filled.expected_output
                &&& probed.price.denominator == filled.amount
            }
        }),
{
}

/// Which error a request meets: each one exactly where its own reason holds
/// and no earlier one does.
pub proof fn law_quote_refusals(venue: VenueState, request: QuoteRequest)
    ensures
        ({
            let exact_out = request.swap_type == SwapType::ExactOut;
            let off_pair = !(request.input_mint == venue.base_mint && request.output_mint
                == venue.quote_mint) && !(request.input_mint == venue.quote_mint
                && request.output_mint == venue.base_mint);
            let base_known = exists|i: int|
                0 <= i < venue.tokens.len() && (#[trigger] venue.tokens[i]).pubkey
                    == venue.base_mint;
            let quote_known = exists|i: int|
                0 <= i < venue.tokens.len() && (#[trigger] venue.tokens[i]).pubkey
                    == venue.quote_mint;
            let error = quote_error(venue, request);
            &&& exact_out <==> error == Some(TradingVenueError::ExactOutNotSupported)
            &&& !exact_out && off_pair <==> error == Some(
                TradingVenueError::InvalidMint(request.input_mint),
            )
            &&& !exact_out && !off_pair && !venue.initialized() <==> error == Some(
                TradingVenueError::NotInitialized(venue.strategy_key),
            )
            &&& !exact_out && !off_pair && venue.initialized() && !base_known <==> error == Some(
                TradingVenueError::MissingState(Leg::Base),
            )
            &&& !exact_out && !off_pair && venue.initialized() && base_known && !quote_known
                <==> error == Some(TradingVenueError::MissingState(Leg::Quote))
            &&& !exact_out && !off_pair && venue.initialized() && base_known && quote_known
                <==> error is None
        }),
{
    law_token_is_there_iff_named(venue.tokens, venue.base_mint);
    law_token_is_there_iff_named(venue.tokens, venue.quote_mint);
}

/// The price from three outputs, whatever they are: the rise over one step up
/// where there is one, else the fall over one step down where there is one,
/// else the average rate.
pub proof fn law_marginal_price(
    amount: u64,
    step: u64,
    out: u64,
    up: Option<u64>,
    down: Option<u64>,
)
    ensures
        ({
            let price = chord_price(amount, step, out, up, down);
            let rises = up is Some && up->0 > out;
            let falls = down is Some && down->0 < out;
            &&& rises ==> out + price.numerator == up->0 && price.denominator == step
            &&& !rises && falls ==> down->0 + price.numerator == out && price.denominator == step
            &&& !rises && !falls ==> price.numerator == out && price.denominator == amount
        }),
{
}

/// The answers from given outputs: a spot answer carries the rate of the
/// probe and never an output; a sized answer carries the output and the
/// marginal price, or reports the refusal with a price of zero.
pub proof fn law_answers_carry_the_outputs(
    request: QuoteRequest,
    probe: u64,
    step: u64,
    out: Option<u64>,
    up: Option<u64>,
    down: Option<u64>,
)
    ensures
        ({
            let spot = spot_answer(request, probe, out);
            let sized = sized_answer(request, step, out, up, down);
            &&& spot.input_mint == request.input_mint && sized.input_mint == request.input_mint
            &&& spot.output_mint == request.output_mint && sized.output_mint == request.output_mint
            &&& spot.amount == 0 && sized.amount == request.amount
            &&& spot.expected_output == 0
            &&& !spot.not_enough_liquidity
            &&& out matches Some(out) ==> {
                &&& spot.price.numerator == out && spot.price.denominator == probe
                &&& sized.expected_output == out
                &&& !sized.not_enough_liquidity
                &&& sized.price == chord_price(request.amount, step, out, up, down)
            }
            &&& out is None ==> {
                &&& spot.price.numerator == 0 && spot.price.denominator == 1
                &&& sized.expected_output == 0
                &&& sized.not_enough_liquidity
                &&& sized.price.numerator == 0 && sized.price.denominator == 1
            }
        }),
{
}

/// The low eight bits of a number.
fn low_byte(value: i32) -> (byte: u8)
    ensures
        byte as int == value as int % 256,
{
    assert((value as u8) as int == (value as int) % 256) by (bit_vector);
    #[verifier::truncate] (value as u8)
}

} // verus!
