//! The venue itself: its state, its gate and its plain accessors.

use vstd::prelude::*;

use crate::pubkey::{key_of, lemma_key_bytes, lemma_key_of, Pubkey};
use crate::sdk::{
    blobs, global_config_address, spl_token_bytes, spl_token_id, system_program_bytes,
    system_program_id, token_2022_bytes, token_2022_id, vault_address, ROUTE_TITAN,
};
use crate::types::{PoolProtocol, TokenInfo};

verus! {

broadcast use lemma_key_of;

/// A single Quay strategy exposed as a trading venue.
///
/// Built from the strategy account, then refreshed every slot. The account
/// blobs are kept raw because the simulator reads them as opaque bytes.
#[derive(Clone, Debug)]
pub struct QuayVenue {
    /// Owner of the strategy account, so that the venue works against any
    /// deployment of the program.
    pub program_id: Pubkey,
    pub strategy_key: Pubkey,
    pub strategy_data: Vec<u8>,
    /// The market maker that the strategy is anchored to.
    pub mm_key: Pubkey,
    pub mm_data: Vec<u8>,
    /// The strategy's bound quotes account.
    pub quotes_key: Pubkey,
    pub quotes_data: Vec<u8>,
    pub global_config_key: Pubkey,
    pub global_config_data: Vec<u8>,
    pub base_mint: Pubkey,
    pub quote_mint: Pubkey,
    /// Pricing does not read the vaults; the swap instruction takes them.
    pub vault_base_key: Pubkey,
    pub vault_quote_key: Pubkey,
    /// The external accounts that the strategy binds, in binding order.
    pub ext_keys: Vec<Pubkey>,
    /// Their data, in the same order; empty until it covers the binding.
    pub ext_data: Vec<Vec<u8>>,
    /// `[base, quote]` token metadata; empty before the first refresh.
    pub tokens: Vec<TokenInfo>,
    /// The strategy's routing bitmask. The program enforces nothing of it:
    /// the venue is routable only where the market maker set Titan's bit.
    pub routing_flags: u8,
    /// Halt and freeze bytes, the set that the on-chain swap checks. All must
    /// be 0 for the venue to be routable. They start at 1, so that the venue
    /// refuses to quote until a refresh has decoded the real bytes.
    pub cfg_swap_halted: u8,
    pub cfg_protocol_halted: u8,
    pub strategy_frozen: u8,
    pub strategy_frozen_admin: u8,
    pub mm_frozen: u8,
    pub mm_frozen_admin: u8,
    pub mm_halted_admin: u8,
    /// Input size, per side, of the spot probe and of the step over which the
    /// marginal price is measured. Set by the market maker.
    pub price_probe_base: u64,
    pub price_probe_quote: u64,
    /// From the `Clock` sysvar; zero until the first refresh.
    pub current_slot: u64,
    pub current_unix_sec: i64,
}

/// The model of a [`QuayVenue`].
#[verifier::ext_equal]
pub struct VenueState {
    pub program_id: Pubkey,
    pub strategy_key: Pubkey,
    pub strategy_data: Seq<u8>,
    pub mm_key: Pubkey,
    pub mm_data: Seq<u8>,
    pub quotes_key: Pubkey,
    pub quotes_data: Seq<u8>,
    pub global_config_key: Pubkey,
    pub global_config_data: Seq<u8>,
    pub base_mint: Pubkey,
    pub quote_mint: Pubkey,
    pub vault_base_key: Pubkey,
    pub vault_quote_key: Pubkey,
    pub ext_keys: Seq<Pubkey>,
    pub ext_data: Seq<Seq<u8>>,
    pub tokens: Seq<TokenInfo>,
    pub routing_flags: u8,
    pub cfg_swap_halted: u8,
    pub cfg_protocol_halted: u8,
    pub strategy_frozen: u8,
    pub strategy_frozen_admin: u8,
    pub mm_frozen: u8,
    pub mm_frozen_admin: u8,
    pub mm_halted_admin: u8,
    pub price_probe_base: u64,
    pub price_probe_quote: u64,
    pub current_slot: u64,
    pub current_unix_sec: i64,
}

impl View for QuayVenue {
    type V = VenueState;

    open spec fn view(&self) -> VenueState {
        VenueState {
            program_id: self.program_id,
            strategy_key: self.strategy_key,
            strategy_data: self.strategy_data@,
            mm_key: self.mm_key,
            mm_data: self.mm_data@,
            quotes_key: self.quotes_key,
            quotes_data: self.quotes_data@,
            global_config_key: self.global_config_key,
            global_config_data: self.global_config_data@,
            base_mint: self.base_mint,
            quote_mint: self.quote_mint,
            vault_base_key: self.vault_base_key,
            vault_quote_key: self.vault_quote_key,
            ext_keys: self.ext_keys@,
            ext_data: blobs(self.ext_data@),
            tokens: self.tokens@,
            routing_flags: self.routing_flags,
            cfg_swap_halted: self.cfg_swap_halted,
            cfg_protocol_halted: self.cfg_protocol_halted,
            strategy_frozen: self.strategy_frozen,
            strategy_frozen_admin: self.strategy_frozen_admin,
            mm_frozen: self.mm_frozen,
            mm_frozen_admin: self.mm_frozen_admin,
            mm_halted_admin: self.mm_halted_admin,
            price_probe_base: self.price_probe_base,
            price_probe_quote: self.price_probe_quote,
            current_slot: self.current_slot,
            current_unix_sec: self.current_unix_sec,
        }
    }
}

impl VenueState {
    /// The market maker opted the strategy into Titan.
    pub open spec fn titan_routed(self) -> bool {
        self.routing_flags & ROUTE_TITAN != 0
    }

    /// A refresh has filled the account blobs, and the external data covers
    /// the binding.
    pub open spec fn has_all_state(self) -> bool {
        &&& self.mm_data.len() > 0
        &&& self.quotes_data.len() > 0
        &&& self.global_config_data.len() > 0
        &&& self.ext_data.len() == self.ext_keys.len()
    }

    /// No halt or freeze byte is set.
    pub open spec fn halts_clear(self) -> bool {
        &&& self.cfg_swap_halted == 0
        &&& self.cfg_protocol_halted == 0
        &&& self.strategy_frozen == 0
        &&& self.strategy_frozen_admin == 0
        &&& self.mm_frozen == 0
        &&& self.mm_frozen_admin == 0
        &&& self.mm_halted_admin == 0
    }

    /// The venue can be routed through.
    pub open spec fn initialized(self) -> bool {
        self.titan_routed() && self.has_all_state() && self.halts_clear()
    }

    /// What construction establishes and every refresh keeps: the derived
    /// addresses belong to the program, the market maker and the mints, and
    /// external data is there for all bound accounts or for none.
    pub open spec fn well_formed(self) -> bool {
        &&& self.global_config_key == global_config_address(self.program_id)
        &&& self.vault_base_key == vault_address(self.program_id, self.mm_key, self.base_mint)
        &&& self.vault_quote_key == vault_address(self.program_id, self.mm_key, self.quote_mint)
        &&& self.ext_keys.len() <= crate::sdk::MAX_EXT_ACCOUNTS
        &&& self.ext_data.len() == 0 || self.ext_data.len() == self.ext_keys.len()
    }
}

/// The programs that a swap or its vault administration may call into: both
/// token programs and the system program.
pub open spec fn dependency_keys() -> Seq<Pubkey> {
    seq![
        key_of(spl_token_bytes()),
        key_of(token_2022_bytes()),
        key_of(system_program_bytes()),
    ]
}

impl QuayVenue {
    /// Whether a refresh has filled the dependent account blobs and, where
    /// the strategy binds external accounts, their data.
    pub fn has_all_state(&self) -> (ready: bool)
        ensures
            ready == self@.has_all_state(),
    {
        !self.mm_data.is_empty() && !self.quotes_data.is_empty()
            && !self.global_config_data.is_empty() && self.ext_data.len() == self.ext_keys.len()
    }

    /// True only when every halt and freeze byte that the on-chain swap
    /// checks is clear.
    pub fn halts_clear(&self) -> (clear: bool)
        ensures
            clear == self@.halts_clear(),
    {
        self.cfg_swap_halted == 0 && self.cfg_protocol_halted == 0 && self.strategy_frozen == 0
            && self.strategy_frozen_admin == 0 && self.mm_frozen == 0 && self.mm_frozen_admin == 0
            && self.mm_halted_admin == 0
    }

    /// Routable once the market maker opted the strategy into Titan, a
    /// refresh has landed, and no halt or freeze byte is set.
    pub fn initialized(&self) -> (ready: bool)
        ensures
            ready == self@.initialized(),
            ready ==> {
                &&& self.routing_flags % 2 == 1
                &&& self.mm_data@.len() > 0
                &&& self.quotes_data@.len() > 0
                &&& self.global_config_data@.len() > 0
                &&& self.ext_data@.len() == self.ext_keys@.len()
            },
    {
        proof {
            law_routing_gate(self@);
        }
        self.routing_flags & ROUTE_TITAN != 0 && self.has_all_state() && self.halts_clear()
    }

    /// The Quay program that the strategy belongs to.
    pub fn program_id(&self) -> (id: Pubkey)
        ensures
            id == self@.program_id,
            id == self.program_id,
    {
        self.program_id
    }

    /// The programs that a swap may call into.
    pub fn program_dependencies(&self) -> (keys: Vec<Pubkey>)
        ensures
            keys@ == dependency_keys(),
    {
        let spl_token = spl_token_id();
        let token_2022 = token_2022_id();
        let system_program = system_program_id();
        vec![spl_token, token_2022, system_program]
    }

    /// The strategy account stands for the market.
    pub fn market_id(&self) -> (id: Pubkey)
        ensures
            id == self@.strategy_key,
            id == self.strategy_key,
    {
        self.strategy_key
    }

    /// `[base, quote]` token metadata, empty before the first refresh.
    pub fn get_token_info(&self) -> (tokens: &[TokenInfo])
        ensures
            tokens@ == self@.tokens,
            tokens@ == self.tokens@,
    {
        self.tokens.as_slice()
    }

    pub fn protocol(&self) -> (protocol: PoolProtocol)
        ensures
            protocol == PoolProtocol::Quay,
    {
        PoolProtocol::Quay
    }
}

/// Any single halt or freeze byte that is set keeps the venue from being
/// routable, whatever the rest of its state.
pub proof fn law_any_halt_blocks(venue: VenueState)
    requires
        venue.cfg_swap_halted != 0 || venue.cfg_protocol_halted != 0 || venue.strategy_frozen != 0
            || venue.strategy_frozen_admin != 0 || venue.mm_frozen != 0 || venue.mm_frozen_admin
            != 0 || venue.mm_halted_admin != 0,
    ensures
        !venue.initialized(),
{
}

/// Other routers' bits never enable the venue, and Titan's bit is enough
/// whatever the other bits are: only the lowest bit of the mask counts.
pub proof fn law_only_titan_bit_routes(venue: VenueState)
    ensures
        venue.titan_routed() <==> venue.routing_flags % 2 == 1,
        !venue.titan_routed() ==> !venue.initialized(),
{
    let flags = venue.routing_flags;
    assert((flags & 0x01 != 0) <==> (flags % 2 == 1)) by (bit_vector);
}

/// The model of a venue holds its fields.
pub proof fn law_venue_model(venue: QuayVenue)
    ensures
        venue@.program_id == venue.program_id,
        venue@.strategy_key == venue.strategy_key,
        venue@.strategy_data == venue.strategy_data@,
        venue@.mm_key == venue.mm_key,
        venue@.mm_data == venue.mm_data@,
        venue@.quotes_key == venue.quotes_key,
        venue@.quotes_data == venue.quotes_data@,
        venue@.global_config_key == venue.global_config_key,
        venue@.global_config_data == venue.global_config_data@,
        venue@.base_mint == venue.base_mint,
        venue@.quote_mint == venue.quote_mint,
        venue@.vault_base_key == venue.vault_base_key,
        venue@.vault_quote_key == venue.vault_quote_key,
        venue@.ext_keys == venue.ext_keys@,
        venue@.tokens == venue.tokens@,
        venue@.routing_flags == venue.routing_flags,
        venue@.cfg_swap_halted == venue.cfg_swap_halted,
        venue@.cfg_protocol_halted == venue.cfg_protocol_halted,
        venue@.strategy_frozen == venue.strategy_frozen,
        venue@.strategy_frozen_admin == venue.strategy_frozen_admin,
        venue@.mm_frozen == venue.mm_frozen,
        venue@.mm_frozen_admin == venue.mm_frozen_admin,
        venue@.mm_halted_admin == venue.mm_halted_admin,
        venue@.price_probe_base == venue.price_probe_base,
        venue@.price_probe_quote == venue.price_probe_quote,
        venue@.current_slot == venue.current_slot,
        venue@.current_unix_sec == venue.current_unix_sec,
        venue@.ext_data.len() == venue.ext_data@.len(),
        forall|i: int|
            0 <= i < venue.ext_data@.len() ==> #[trigger] venue@.ext_data[i] == venue.ext_data@[i]@,
{
}

/// A venue is routable where the lowest routing bit is set, market maker,
/// quotes and config are there, external data covers the binding, and all seven
/// halt and freeze bytes are 0. Nothing else counts.
pub proof fn law_routing_gate(venue: VenueState)
    ensures
        venue.initialized() <==> {
            &&& venue.routing_flags % 2 == 1
            &&& venue.mm_data.len() > 0
            &&& venue.quotes_data.len() > 0
            &&& venue.global_config_data.len() > 0
            &&& venue.ext_data.len() == venue.ext_keys.len()
            &&& venue.cfg_swap_halted == 0
            &&& venue.cfg_protocol_halted == 0
            &&& venue.strategy_frozen == 0
            &&& venue.strategy_frozen_admin == 0
            &&& venue.mm_frozen == 0
            &&& venue.mm_frozen_admin == 0
            &&& venue.mm_halted_admin == 0
        },
{
    law_only_titan_bit_routes(venue);
}

/// All state is there where the three blobs are not empty and the external
/// data covers the binding; the halts are clear where all seven bytes are 0.
pub proof fn law_gate_parts(venue: VenueState)
    ensures
        venue.has_all_state() <==> {
            &&& venue.mm_data.len() > 0
            &&& venue.quotes_data.len() > 0
            &&& venue.global_config_data.len() > 0
            &&& venue.ext_data.len() == venue.ext_keys.len()
        },
        venue.halts_clear() <==> {
            &&& venue.cfg_swap_halted == 0
            &&& venue.cfg_protocol_halted == 0
            &&& venue.strategy_frozen == 0
            &&& venue.strategy_frozen_admin == 0
            &&& venue.mm_frozen == 0
            &&& venue.mm_frozen_admin == 0
            &&& venue.mm_halted_admin == 0
        },
{
}

/// The dependencies are three programs: SPL Token, Token-2022 and the system
/// program, whose address is all zeroes.
pub proof fn law_dependencies()
    ensures
        dependency_keys().len() == 3,
        dependency_keys()[0]@ == spl_token_bytes(),
        dependency_keys()[1]@ == token_2022_bytes(),
        dependency_keys()[2]@.len() == 32,
        forall|i: int| 0 <= i < 32 ==> #[trigger] dependency_keys()[2]@[i] == 0,
{
    lemma_key_bytes(spl_token_bytes());
    lemma_key_bytes(token_2022_bytes());
    lemma_key_bytes(system_program_bytes());
}

} // verus!
