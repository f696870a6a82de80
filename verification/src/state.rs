//! Building a venue from its strategy account and refreshing it per slot.

use vstd::prelude::*;

use crate::bytes::{le_value, lemma_le_value_bound, lemma_pow_256_4, lemma_pow_256_8};
use crate::clock::{clock_of, decode_clock};
use crate::pubkey::{key_of, lemma_key_bytes, lemma_key_of, same_keys, Pubkey};
use crate::sdk::{
    blobs, clock_sysvar_bytes, clock_sysvar_id, decode_global_config, decode_market_maker,
    decode_strategy, ext_account_keys, ext_binding, global_config, global_config_address,
    global_config_pda, market_maker_address, market_maker_header, market_maker_pda, program_address,
    seed_global, seed_mm, seed_vault, strategy_header, vault_address, vault_pda, ROUTE_TITAN,
};
use crate::types::{Account, DecodeError, DecodeFailure, Leg, TokenInfo, TradingVenueError};
use crate::venue::{QuayVenue, VenueState};

verus! {

broadcast use lemma_key_of;

/// Why no venue can be built from a strategy account with this data, if so.
pub open spec fn build_error(data: Seq<u8>) -> Option<TradingVenueError> {
    match strategy_header(data) {
        Err(error) => Some(
            TradingVenueError::DeserializationFailed(DecodeFailure::StrategyHeader(error)),
        ),
        Ok(_) => match ext_binding(data) {
            Err(error) => Some(
                TradingVenueError::DeserializationFailed(DecodeFailure::ExtBinding(error)),
            ),
            Ok(_) => None,
        },
    }
}

/// The venue built from the strategy account at `key`, held by the program
/// `owner`: identity and routing come from the header, addresses are derived,
/// and everything that a refresh supplies is missing, with every halt set.
pub open spec fn built(key: Pubkey, owner: Pubkey, data: Seq<u8>) -> VenueState
    recommends
        build_error(data) is None,
{
    let header = strategy_header(data)->Ok_0;
    let mm_key = market_maker_address(owner, header.owner);
    VenueState {
        program_id: owner,
        strategy_key: key,
        strategy_data: data,
        mm_key,
        mm_data: Seq::empty(),
        quotes_key: header.quotes_account,
        quotes_data: Seq::empty(),
        global_config_key: global_config_address(owner),
        global_config_data: Seq::empty(),
        base_mint: header.base_mint,
        quote_mint: header.quote_mint,
        vault_base_key: vault_address(owner, mm_key, header.base_mint),
        vault_quote_key: vault_address(owner, mm_key, header.quote_mint),
        ext_keys: ext_binding(data)->Ok_0,
        ext_data: Seq::empty(),
        tokens: Seq::empty(),
        routing_flags: header.routing_flags,
        cfg_swap_halted: 1,
        cfg_protocol_halted: 1,
        strategy_frozen: 1,
        strategy_frozen_admin: 1,
        mm_frozen: 1,
        mm_frozen_admin: 1,
        mm_halted_admin: 1,
        price_probe_base: header.price_probe_base,
        price_probe_quote: header.price_probe_quote,
        current_slot: 0,
        current_unix_sec: 0,
    }
}

/// The accounts that a refresh needs, in the order in which it decodes them.
pub open spec fn update_keys(venue: VenueState) -> Seq<Pubkey> {
    seq![
        venue.strategy_key,
        venue.mm_key,
        venue.quotes_key,
        venue.global_config_key,
        venue.base_mint,
        venue.quote_mint,
        venue.vault_base_key,
        venue.vault_quote_key,
        key_of(clock_sysvar_bytes()),
    ] + venue.ext_keys
}

/// Slot of the first bound external account in a batch.
pub const EXT_SLOT: usize = 9;

/// The data of the account in slot `i` of a batch.
pub open spec fn slot_data(accounts: Seq<Option<Account>>, i: int) -> Seq<u8> {
    accounts[i]->0.data@
}

/// Slot `i` of a batch holds no account.
pub open spec fn missing(accounts: Seq<Option<Account>>, i: int) -> bool {
    accounts[i] is None
}

/// Why a refresh of `venue` with this batch fails, if it does: the first of
/// the checks, made slot by slot, that does not hold.
pub open spec fn refresh_error(
    venue: VenueState,
    accounts: Seq<Option<Account>>,
    base_token: Option<TokenInfo>,
    quote_token: Option<TokenInfo>,
) -> Option<TradingVenueError> {
    let strategy = strategy_header(slot_data(accounts, 0));
    let market_maker = market_maker_header(slot_data(accounts, 1));
    let config = global_config(slot_data(accounts, 3));
    let ext_keys = ext_binding(slot_data(accounts, 0));
    if accounts.len() != update_keys(venue).len() {
        Some(TradingVenueError::FailedToFetchMultipleAccountData)
    } else if missing(accounts, 0) {
        Some(TradingVenueError::NoAccountFound(venue.strategy_key))
    } else if strategy is Err {
        Some(
            TradingVenueError::DeserializationFailed(
                DecodeFailure::StrategyHeader(strategy->Err_0),
            ),
        )
    } else if missing(accounts, 1) {
        Some(TradingVenueError::NoAccountFound(venue.mm_key))
    } else if market_maker is Err {
        Some(
            TradingVenueError::DeserializationFailed(
                DecodeFailure::MarketMakerHeader(market_maker->Err_0),
            ),
        )
    } else if missing(accounts, 2) {
        Some(TradingVenueError::NoAccountFound(venue.quotes_key))
    } else if missing(accounts, 3) {
        Some(TradingVenueError::NoAccountFound(venue.global_config_key))
    } else if config is Err {
        Some(
            TradingVenueError::DeserializationFailed(DecodeFailure::GlobalConfig(config->Err_0)),
        )
    } else if missing(accounts, 4) {
        Some(TradingVenueError::NoAccountFound(venue.base_mint))
    } else if missing(accounts, 5) {
        Some(TradingVenueError::NoAccountFound(venue.quote_mint))
    } else if base_token is None {
        Some(TradingVenueError::DeserializationFailed(DecodeFailure::TokenMint(Leg::Base)))
    } else if quote_token is None {
        Some(TradingVenueError::DeserializationFailed(DecodeFailure::TokenMint(Leg::Quote)))
    } else if missing(accounts, 6) {
        Some(TradingVenueError::NoAccountFound(venue.vault_base_key))
    } else if missing(accounts, 7) {
        Some(TradingVenueError::NoAccountFound(venue.vault_quote_key))
    } else if missing(accounts, 8) {
        Some(TradingVenueError::NoAccountFound(key_of(clock_sysvar_bytes())))
    } else if clock_of(slot_data(accounts, 8)) is None {
        Some(TradingVenueError::DeserializationFailed(DecodeFailure::ClockTooShort))
    } else if ext_keys is Err {
        Some(
            TradingVenueError::DeserializationFailed(DecodeFailure::ExtBinding(ext_keys->Err_0)),
        )
    } else {
        None
    }
}

/// The external data that a refresh publishes. The batch was fetched under
/// the venue's previous binding: where the strategy has rebound its accounts
/// since, or one of them is missing, nothing is published.
pub open spec fn fresh_ext_data(
    venue: VenueState,
    accounts: Seq<Option<Account>>,
) -> Seq<Seq<u8>> {
    let keys = ext_binding(slot_data(accounts, 0))->Ok_0;
    if keys == venue.ext_keys && (forall|i: int|
        EXT_SLOT <= i < EXT_SLOT + keys.len() ==> !missing(accounts, i)) {
        Seq::new(keys.len(), |i: int| slot_data(accounts, EXT_SLOT + i))
    } else {
        Seq::empty()
    }
}

/// The venue after a refresh with this batch: its identity and its derived
/// addresses stay, everything else is what the batch says.
pub open spec fn refreshed(
    venue: VenueState,
    accounts: Seq<Option<Account>>,
    base_token: Option<TokenInfo>,
    quote_token: Option<TokenInfo>,
) -> VenueState
    recommends
        refresh_error(venue, accounts, base_token, quote_token) is None,
{
    let strategy = strategy_header(slot_data(accounts, 0))->Ok_0;
    let market_maker = market_maker_header(slot_data(accounts, 1))->Ok_0;
    let config = global_config(slot_data(accounts, 3))->Ok_0;
    let (slot, unix_sec) = clock_of(slot_data(accounts, 8))->0;
    VenueState {
        strategy_data: slot_data(accounts, 0),
        ext_keys: ext_binding(slot_data(accounts, 0))->Ok_0,
        ext_data: fresh_ext_data(venue, accounts),
        strategy_frozen: strategy.frozen,
        strategy_frozen_admin: strategy.frozen_admin,
        routing_flags: strategy.routing_flags,
        price_probe_base: strategy.price_probe_base,
        price_probe_quote: strategy.price_probe_quote,
        mm_data: slot_data(accounts, 1),
        mm_frozen: market_maker.frozen,
        mm_frozen_admin: market_maker.frozen_admin,
        mm_halted_admin: market_maker.halted_admin,
        quotes_data: slot_data(accounts, 2),
        global_config_data: slot_data(accounts, 3),
        cfg_swap_halted: config.swap_halted,
        cfg_protocol_halted: config.protocol_halted,
        tokens: seq![base_token->0, quote_token->0],
        current_slot: slot,
        current_unix_sec: unix_sec,
        ..venue
    }
}

/// The venue after an attempted refresh: unchanged where it fails.
pub open spec fn after_refresh(
    venue: VenueState,
    accounts: Seq<Option<Account>>,
    base_token: Option<TokenInfo>,
    quote_token: Option<TokenInfo>,
) -> VenueState {
    if refresh_error(venue, accounts, base_token, quote_token) is None {
        refreshed(venue, accounts, base_token, quote_token)
    } else {
        venue
    }
}

impl QuayVenue {
    /// Builds the venue of the strategy account at `pubkey`.
    pub fn from_account(pubkey: &Pubkey, account: &Account) -> (venue: Result<
        QuayVenue,
        TradingVenueError,
    >)
        ensures
            match venue {
                Ok(venue) => {
                    &&& build_error(account.data@) is None
                    &&& venue@ == built(*pubkey, account.owner, account.data@)
                    &&& venue@.well_formed()
                    &&& venue.strategy_key == *pubkey
                    &&& venue.program_id == account.owner
                    &&& venue.strategy_data@ == account.data@
                    &&& venue.base_mint@ == account.data@.subrange(40, 72)
                    &&& venue.quote_mint@ == account.data@.subrange(72, 104)
                    &&& venue.quotes_key@ == account.data@.subrange(104, 136)
                    &&& venue.mm_key@ == program_address(
                        seq![seed_mm(), account.data@.subrange(8, 40)],
                        account.owner@,
                    )
                    &&& venue.global_config_key@ == program_address(
                        seq![seed_global()],
                        account.owner@,
                    )
                    &&& venue.vault_base_key@ == program_address(
                        seq![seed_vault(), venue.mm_key@, account.data@.subrange(40, 72)],
                        account.owner@,
                    )
                    &&& venue.vault_quote_key@ == program_address(
                        seq![seed_vault(), venue.mm_key@, account.data@.subrange(72, 104)],
                        account.owner@,
                    )
                },
                Err(error) => build_error(account.data@) == Some(error),
            },
    {
        let strategy = match decode_strategy(account.data.as_slice()) {
            Ok(header) => header,
            Err(error) => {
                return Err(
                    TradingVenueError::DeserializationFailed(DecodeFailure::StrategyHeader(error)),
                );
            },
        };
        let program_id = account.owner;
        let mm_key = market_maker_pda(&program_id, &strategy.owner);
        let global_config_key = global_config_pda(&program_id);
        let vault_base_key = vault_pda(&program_id, &mm_key, &strategy.base_mint);
        let vault_quote_key = vault_pda(&program_id, &mm_key, &strategy.quote_mint);
        let ext_keys = match ext_account_keys(account.data.as_slice()) {
            Ok(keys) => keys,
            Err(error) => {
                return Err(
                    TradingVenueError::DeserializationFailed(DecodeFailure::ExtBinding(error)),
                );
            },
        };
        let venue = QuayVenue {
            program_id,
            strategy_key: *pubkey,
            strategy_data: account.data.clone(),
            mm_key,
            mm_data: Vec::new(),
            quotes_key: strategy.quotes_account,
            quotes_data: Vec::new(),
            global_config_key,
            global_config_data: Vec::new(),
            base_mint: strategy.base_mint,
            quote_mint: strategy.quote_mint,
            vault_base_key,
            vault_quote_key,
            ext_keys,
            // Fetched on the first refresh.
            ext_data: Vec::new(),
            tokens: Vec::new(),
            routing_flags: strategy.routing_flags,
            // Set until the first refresh has decoded the real bytes.
            cfg_swap_halted: 1,
            cfg_protocol_halted: 1,
            strategy_frozen: 1,
            strategy_frozen_admin: 1,
            mm_frozen: 1,
            mm_frozen_admin: 1,
            mm_halted_admin: 1,
            price_probe_base: strategy.price_probe_base,
            price_probe_quote: strategy.price_probe_quote,
            current_slot: 0,
            current_unix_sec: 0,
        };
        assert(venue@ =~= built(*pubkey, account.owner, account.data@));
        proof {
            law_headers_read_the_bytes(account.data@);
        }
        Ok(venue)
    }

    /// The accounts that a refresh needs each slot, in the order in which
    /// `refresh_state` decodes them.
    pub fn required_update_pubkeys(&self) -> (keys: Result<Vec<Pubkey>, TradingVenueError>)
        ensures
            keys matches Ok(keys) && keys@ == update_keys(self@),
            keys matches Ok(keys) ==> {
                &&& keys@.len() == 9 + self.ext_keys@.len()
                &&& keys@[0] == self.strategy_key
                &&& keys@[1] == self.mm_key
                &&& keys@[2] == self.quotes_key
                &&& keys@[3] == self.global_config_key
                &&& keys@[4] == self.base_mint
                &&& keys@[5] == self.quote_mint
                &&& keys@[6] == self.vault_base_key
                &&& keys@[7] == self.vault_quote_key
                &&& keys@[8]@ == clock_sysvar_bytes()
                &&& forall|i: int|
                    0 <= i < self.ext_keys@.len() ==> keys@[9 + i] == #[trigger] self.ext_keys@[i]
            },
    {
        let clock = clock_sysvar_id();
        let mut keys: Vec<Pubkey> = vec![
            self.strategy_key,
            self.mm_key,
            self.quotes_key,
            self.global_config_key,
            self.base_mint,
            self.quote_mint,
            self.vault_base_key,
            self.vault_quote_key,
            clock,
        ];
        keys.extend_from_slice(self.ext_keys.as_slice());
        assert(keys@ =~= update_keys(self@));
        Ok(keys)
    }

    /// See [`QuayVenue::required_update_pubkeys`].
    pub fn get_required_pubkeys_for_update(&self) -> (keys: Result<Vec<Pubkey>, TradingVenueError>)
        ensures
            keys matches Ok(keys) && keys@ == update_keys(self@),
            keys matches Ok(keys) ==> {
                &&& keys@.len() == 9 + self.ext_keys@.len()
                &&& keys@[0] == self.strategy_key
                &&& keys@[1] == self.mm_key
                &&& keys@[2] == self.quotes_key
                &&& keys@[3] == self.global_config_key
                &&& keys@[4] == self.base_mint
                &&& keys@[5] == self.quote_mint
                &&& keys@[6] == self.vault_base_key
                &&& keys@[7] == self.vault_quote_key
                &&& keys@[8]@ == clock_sysvar_bytes()
                &&& forall|i: int|
                    0 <= i < self.ext_keys@.len() ==> keys@[9 + i] == #[trigger] self.ext_keys@[i]
            },
    {
        self.required_update_pubkeys()
    }

    /// Collects the external data that a refresh publishes.
    fn collect_ext_data(&self, accounts: &Vec<Option<Account>>, keys: &Vec<Pubkey>) -> (data: Vec<
        Vec<u8>,
    >)
        requires
            accounts@.len() == EXT_SLOT + self@.ext_keys.len(),
            !missing(accounts@, 0),
            ext_binding(slot_data(accounts@, 0)) == Ok::<Seq<Pubkey>, DecodeError>(keys@),
        ensures
            blobs(data@) == fresh_ext_data(self@, accounts@),
    {
        let mut data: Vec<Vec<u8>> = Vec::new();
        if !same_keys(keys, &self.ext_keys) {
            assert(blobs(data@) =~= fresh_ext_data(self@, accounts@));
            return data;
        }
        let mut i: usize = 0;
        while i < keys.len()
            invariant
                i <= keys@.len(),
                keys@ == self@.ext_keys,
                accounts@.len() == EXT_SLOT + keys@.len(),
                ext_binding(slot_data(accounts@, 0)) == Ok::<Seq<Pubkey>, DecodeError>(keys@),
                data@.len() == i,
                forall|k: int| EXT_SLOT <= k < EXT_SLOT + i ==> !missing(accounts@, k),
                forall|k: int|
                    0 <= k < i ==> #[trigger] data@[k]@ == slot_data(accounts@, EXT_SLOT + k),
            decreases keys@.len() - i,
        {
            match &accounts[EXT_SLOT + i] {
                Some(account) => data.push(account.data.clone()),
                None => {
                    let none: Vec<Vec<u8>> = Vec::new();
                    assert(missing(accounts@, EXT_SLOT + i));
                    assert(blobs(none@) =~= fresh_ext_data(self@, accounts@));
                    return none;
                },
            }
            i = i + 1;
        }
        assert(blobs(data@) =~= fresh_ext_data(self@, accounts@));
        data
    }

    /// Refreshes the cached blobs, the halt and freeze bytes, the token
    /// metadata and the clock from a batch of accounts, fetched in the order
    /// of `required_update_pubkeys`.
    ///
    /// `base_token` and `quote_token` are what the host's mint decoder makes of
    /// the accounts in slots 4 and 5, `None` where it refuses one.
    ///
    /// The refresh is atomic: on any failure the venue keeps its previous
    /// state, the set halts of a venue that was never refreshed included.
    pub fn refresh_state(
        &mut self,
        accounts: &Vec<Option<Account>>,
        base_token: Option<TokenInfo>,
        quote_token: Option<TokenInfo>,
    ) -> (outcome: Result<(), TradingVenueError>)
        ensures
            match outcome {
                Ok(()) => {
                    &&& refresh_error(old(self)@, accounts@, base_token, quote_token) is None
                    &&& final(self)@ == refreshed(old(self)@, accounts@, base_token, quote_token)
                },
                Err(error) => {
                    &&& refresh_error(old(self)@, accounts@, base_token, quote_token) == Some(error)
                    &&& *final(self) == *old(self)
                },
            },
            final(self)@ == after_refresh(old(self)@, accounts@, base_token, quote_token),
            outcome is Ok ==> {
                &&& final(self).strategy_data@ == accounts@[0]->0.data@
                &&& final(self).mm_data@ == accounts@[1]->0.data@
                &&& final(self).quotes_data@ == accounts@[2]->0.data@
                &&& final(self).global_config_data@ == accounts@[3]->0.data@
                &&& final(self).tokens@.len() == 2
                &&& Some(final(self).tokens@[0]) == base_token
                &&& Some(final(self).tokens@[1]) == quote_token
                &&& final(self).current_slot == le_value(accounts@[8]->0.data@.subrange(0, 8))
                &&& final(self).strategy_frozen_admin == accounts@[0]->0.data@[4]
                &&& final(self).strategy_frozen == accounts@[0]->0.data@[5]
                &&& final(self).routing_flags == accounts@[0]->0.data@[160]
                &&& final(self).price_probe_base == le_value(
                    accounts@[0]->0.data@.subrange(161, 169),
                )
                &&& final(self).price_probe_quote == le_value(
                    accounts@[0]->0.data@.subrange(169, 177),
                )
                &&& final(self).mm_frozen_admin == accounts@[1]->0.data@[2]
                &&& final(self).mm_halted_admin == accounts@[1]->0.data@[3]
                &&& final(self).mm_frozen == accounts@[1]->0.data@[4]
                &&& final(self).cfg_swap_halted == accounts@[3]->0.data@[2]
                &&& final(self).cfg_protocol_halted == accounts@[3]->0.data@[3]
                &&& final(self).ext_data@.len() == 0 || final(self).ext_data@.len()
                    == final(self).ext_keys@.len()
                &&& forall|i: int|
                    0 <= i < final(self).ext_data@.len() ==> (#[trigger] final(self).ext_data@[i])@
                        == accounts@[9 + i]->0.data@
                &&& ext_binding(accounts@[0]->0.data@) == Ok::<Seq<Pubkey>, DecodeError>(
                    final(self).ext_keys@,
                )
            },
            old(self)@.well_formed() ==> final(self)@.well_formed(),
    {
        let needed = match self.required_update_pubkeys() {
            Ok(keys) => keys,
            Err(error) => return Err(error),
        };
        if accounts.len() != needed.len() {
            return Err(TradingVenueError::FailedToFetchMultipleAccountData);
        }
        // Slot 0: strategy. Frozen flags, routing flags, probe sizes.
        let strategy_account = match &accounts[0] {
            Some(account) => account,
            None => return Err(TradingVenueError::NoAccountFound(self.strategy_key)),
        };
        let strategy = match decode_strategy(strategy_account.data.as_slice()) {
            Ok(header) => header,
            Err(error) => {
                return Err(
                    TradingVenueError::DeserializationFailed(DecodeFailure::StrategyHeader(error)),
                );
            },
        };
        // Slot 1: market maker. Admin halts.
        let mm_account = match &accounts[1] {
            Some(account) => account,
            None => return Err(TradingVenueError::NoAccountFound(self.mm_key)),
        };
        let mm = match decode_market_maker(mm_account.data.as_slice()) {
            Ok(header) => header,
            Err(error) => {
                return Err(
                    TradingVenueError::DeserializationFailed(
                        DecodeFailure::MarketMakerHeader(error),
                    ),
                );
            },
        };
        // Slot 2: quotes.
        let quotes_account = match &accounts[2] {
            Some(account) => account,
            None => return Err(TradingVenueError::NoAccountFound(self.quotes_key)),
        };
        // Slot 3: global config. Protocol-wide halts.
        let cfg_account = match &accounts[3] {
            Some(account) => account,
            None => return Err(TradingVenueError::NoAccountFound(self.global_config_key)),
        };
        let cfg = match decode_global_config(cfg_account.data.as_slice()) {
            Ok(config) => config,
            Err(error) => {
                return Err(
                    TradingVenueError::DeserializationFailed(DecodeFailure::GlobalConfig(error)),
                );
            },
        };
        // Slots 4 and 5: mints.
        if accounts[4].is_none() {
            return Err(TradingVenueError::NoAccountFound(self.base_mint));
        }
        if accounts[5].is_none() {
            return Err(TradingVenueError::NoAccountFound(self.quote_mint));
        }
        let base_info = match base_token {
            Some(info) => info,
            None => {
                return Err(
                    TradingVenueError::DeserializationFailed(DecodeFailure::TokenMint(Leg::Base)),
                );
            },
        };
        let quote_info = match quote_token {
            Some(info) => info,
            None => {
                return Err(
                    TradingVenueError::DeserializationFailed(DecodeFailure::TokenMint(Leg::Quote)),
                );
            },
        };
        // Slots 6 and 7: vaults. Only their existence is checked.
        if accounts[6].is_none() {
            return Err(TradingVenueError::NoAccountFound(self.vault_base_key));
        }
        if accounts[7].is_none() {
            return Err(TradingVenueError::NoAccountFound(self.vault_quote_key));
        }
        // Slot 8: the clock that the simulator sees.
        let clock_account = match &accounts[8] {
            Some(account) => account,
            None => return Err(TradingVenueError::NoAccountFound(clock_sysvar_id())),
        };
        let (slot, unix_sec) = match decode_clock(clock_account.data.as_slice()) {
            Some(clock) => clock,
            None => {
                return Err(
                    TradingVenueError::DeserializationFailed(DecodeFailure::ClockTooShort),
                );
            },
        };
        // Slots 9 and up: the bound external accounts.
        let ext_keys = match ext_account_keys(strategy_account.data.as_slice()) {
            Ok(keys) => keys,
            Err(error) => {
                return Err(
                    TradingVenueError::DeserializationFailed(DecodeFailure::ExtBinding(error)),
                );
            },
        };
        let ext_data = self.collect_ext_data(accounts, &ext_keys);

        // Every slot resolved: commit the new snapshot.
        self.strategy_data = strategy_account.data.clone();
        self.ext_keys = ext_keys;
        self.ext_data = ext_data;
        self.strategy_frozen = strategy.frozen;
        self.strategy_frozen_admin = strategy.frozen_admin;
        self.routing_flags = strategy.routing_flags;
        self.price_probe_base = strategy.price_probe_base;
        self.price_probe_quote = strategy.price_probe_quote;
        self.mm_data = mm_account.data.clone();
        self.mm_frozen = mm.frozen;
        self.mm_frozen_admin = mm.frozen_admin;
        self.mm_halted_admin = mm.halted_admin;
        self.quotes_data = quotes_account.data.clone();
        self.global_config_data = cfg_account.data.clone();
        self.cfg_swap_halted = cfg.swap_halted;
        self.cfg_protocol_halted = cfg.protocol_halted;
        self.tokens = vec![base_info, quote_info];
        self.current_slot = slot;
        self.current_unix_sec = unix_sec;
        assert(self@ =~= refreshed(old(self)@, accounts@, base_token, quote_token));
        proof {
            law_refresh_takes_the_batch(old(self)@, accounts@, base_token, quote_token);
            law_ext_data_is_all_or_nothing(old(self)@, accounts@, base_token, quote_token);
            assert forall|i: int| 0 <= i < self.ext_data@.len() implies (
            #[trigger] self.ext_data@[i])@ == accounts@[9 + i]->0.data@ by {
                assert(self@.ext_data[i] == self.ext_data@[i]@);
            }
        }
        Ok(())
    }
}

/// A venue is never routable before a refresh has succeeded: not when it is
/// built, and not after a first refresh that failed.
pub proof fn law_not_initialized_before_refresh(
    key: Pubkey,
    account: Account,
    accounts: Seq<Option<Account>>,
    base_token: Option<TokenInfo>,
    quote_token: Option<TokenInfo>,
)
    requires
        build_error(account.data@) is None,
    ensures
        ({
            let venue = built(key, account.owner, account.data@);
            &&& !venue.initialized()
            &&& after_refresh(venue, accounts, base_token, quote_token).initialized()
                ==> refresh_error(venue, accounts, base_token, quote_token) is None
        }),
{
}

/// After a refresh that succeeded the venue is routable exactly where the
/// fetched accounts say so: the strategy carries Titan's routing bit, no halt
/// or freeze byte is set on chain, the quotes account is not empty, and the
/// external data covers the binding.
pub proof fn law_refreshed_gate(
    venue: VenueState,
    accounts: Seq<Option<Account>>,
    base_token: Option<TokenInfo>,
    quote_token: Option<TokenInfo>,
)
    requires
        refresh_error(venue, accounts, base_token, quote_token) is None,
    ensures
        ({
            let fresh = refreshed(venue, accounts, base_token, quote_token);
            let strategy = strategy_header(slot_data(accounts, 0))->Ok_0;
            let market_maker = market_maker_header(slot_data(accounts, 1))->Ok_0;
            let config = global_config(slot_data(accounts, 3))->Ok_0;
            fresh.initialized() <==> {
                &&& strategy.routing_flags & ROUTE_TITAN != 0
                &&& strategy.frozen == 0
                &&& strategy.frozen_admin == 0
                &&& market_maker.frozen == 0
                &&& market_maker.frozen_admin == 0
                &&& market_maker.halted_admin == 0
                &&& config.swap_halted == 0
                &&& config.protocol_halted == 0
                &&& slot_data(accounts, 2).len() > 0
                &&& fresh.ext_data.len() == fresh.ext_keys.len()
            }
        }),
{
}

/// A strategy without any routing bit, as every strategy is born, is not
/// routable after a refresh.
pub proof fn law_unrouted_strategy_stays_dark(
    venue: VenueState,
    accounts: Seq<Option<Account>>,
    base_token: Option<TokenInfo>,
    quote_token: Option<TokenInfo>,
)
    requires
        refresh_error(venue, accounts, base_token, quote_token) is None,
        strategy_header(slot_data(accounts, 0))->Ok_0.routing_flags == 0,
    ensures
        !refreshed(venue, accounts, base_token, quote_token).initialized(),
{
    assert(0u8 & 0x01 == 0) by (bit_vector);
}

/// A refreshed venue is one coherent snapshot: each cached flag is what the
/// cached blob of its account says.
pub proof fn law_snapshot_is_coherent(
    venue: VenueState,
    accounts: Seq<Option<Account>>,
    base_token: Option<TokenInfo>,
    quote_token: Option<TokenInfo>,
)
    requires
        refresh_error(venue, accounts, base_token, quote_token) is None,
    ensures
        ({
            let fresh = refreshed(venue, accounts, base_token, quote_token);
            &&& strategy_header(fresh.strategy_data) matches Ok(strategy) && {
                &&& fresh.strategy_frozen == strategy.frozen
                &&& fresh.strategy_frozen_admin == strategy.frozen_admin
                &&& fresh.routing_flags == strategy.routing_flags
                &&& fresh.price_probe_base == strategy.price_probe_base
                &&& fresh.price_probe_quote == strategy.price_probe_quote
            }
            &&& market_maker_header(fresh.mm_data) matches Ok(market_maker) && {
                &&& fresh.mm_frozen == market_maker.frozen
                &&& fresh.mm_frozen_admin == market_maker.frozen_admin
                &&& fresh.mm_halted_admin == market_maker.halted_admin
            }
            &&& global_config(fresh.global_config_data) matches Ok(config) && {
                &&& fresh.cfg_swap_halted == config.swap_halted
                &&& fresh.cfg_protocol_halted == config.protocol_halted
            }
            &&& ext_binding(fresh.strategy_data) == Ok::<Seq<Pubkey>, DecodeError>(fresh.ext_keys)
        }),
{
}

/// The nine fixed slots come in the order of the key list, the clock in slot
/// 8, and the bound external accounts follow.
pub proof fn law_update_key_order(venue: VenueState)
    ensures
        update_keys(venue).len() == EXT_SLOT + venue.ext_keys.len(),
        update_keys(venue)[8]@ == clock_sysvar_bytes(),
        forall|i: int|
            0 <= i < venue.ext_keys.len() ==> update_keys(venue)[EXT_SLOT + i]
                == #[trigger] venue.ext_keys[i],
{
    lemma_key_bytes(clock_sysvar_bytes());
}

/// The decode order is the key order: an account reported as missing is one
/// whose slot is empty in the batch, under the key that was asked for in this
/// slot; and no refresh succeeds while one of the nine fixed slots is empty.
pub proof fn law_missing_account_is_reported(
    venue: VenueState,
    accounts: Seq<Option<Account>>,
    base_token: Option<TokenInfo>,
    quote_token: Option<TokenInfo>,
)
    requires
        accounts.len() == update_keys(venue).len(),
    ensures
        ({
            let error = refresh_error(venue, accounts, base_token, quote_token);
            &&& error matches Some(TradingVenueError::NoAccountFound(key)) ==> exists|i: int|
                0 <= i < EXT_SLOT && #[trigger] missing(accounts, i) && key == update_keys(
                    venue,
                )[i]
            &&& (exists|i: int| 0 <= i < EXT_SLOT && #[trigger] missing(accounts, i))
                ==> error is Some
        }),
{
    let error = refresh_error(venue, accounts, base_token, quote_token);
    if error is Some && error->0 is NoAccountFound {
        let keys = update_keys(venue);
        let key = error->0->NoAccountFound_0;
        assert(keys[0] == venue.strategy_key && keys[1] == venue.mm_key && keys[2]
            == venue.quotes_key && keys[3] == venue.global_config_key && keys[4]
            == venue.base_mint && keys[5] == venue.quote_mint && keys[6] == venue.vault_base_key
            && keys[7] == venue.vault_quote_key && keys[8] == key_of(clock_sysvar_bytes()));
        let i: int = if missing(accounts, 0) {
            0
        } else if missing(accounts, 1) {
            1
        } else if missing(accounts, 2) {
            2
        } else if missing(accounts, 3) {
            3
        } else if missing(accounts, 4) {
            4
        } else if missing(accounts, 5) {
            5
        } else if missing(accounts, 6) {
            6
        } else if missing(accounts, 7) {
            7
        } else {
            8
        };
        assert(missing(accounts, i) && key == keys[i]);
    }
}

/// A refresh, successful or not, never changes what the venue is: its program,
/// its strategy, its pair and the addresses derived from them.
pub proof fn law_refresh_keeps_identity(
    venue: VenueState,
    accounts: Seq<Option<Account>>,
    base_token: Option<TokenInfo>,
    quote_token: Option<TokenInfo>,
)
    ensures
        ({
            let after = after_refresh(venue, accounts, base_token, quote_token);
            &&& after.program_id == venue.program_id
            &&& after.strategy_key == venue.strategy_key
            &&& after.mm_key == venue.mm_key
            &&& after.quotes_key == venue.quotes_key
            &&& after.global_config_key == venue.global_config_key
            &&& after.base_mint == venue.base_mint
            &&& after.quote_mint == venue.quote_mint
            &&& after.vault_base_key == venue.vault_base_key
            &&& after.vault_quote_key == venue.vault_quote_key
        }),
{
}

/// A strategy that binds external accounts goes dark for a refresh in which
/// its binding changed or one of the bound accounts is missing.
pub proof fn law_rebinding_goes_dark(
    venue: VenueState,
    accounts: Seq<Option<Account>>,
    base_token: Option<TokenInfo>,
    quote_token: Option<TokenInfo>,
)
    requires
        refresh_error(venue, accounts, base_token, quote_token) is None,
        ({
            let keys = ext_binding(slot_data(accounts, 0))->Ok_0;
            &&& keys.len() > 0
            &&& keys != venue.ext_keys || exists|i: int|
                EXT_SLOT <= i < EXT_SLOT + keys.len() && #[trigger] missing(accounts, i)
        }),
    ensures
        refreshed(venue, accounts, base_token, quote_token).ext_data.len() == 0,
        !refreshed(venue, accounts, base_token, quote_token).initialized(),
{
}

/// External data is never mis-paired: what a refresh publishes for the `i`-th
/// bound key is the data of the account that was fetched for that very key.
pub proof fn law_ext_data_pairs(
    venue: VenueState,
    accounts: Seq<Option<Account>>,
    base_token: Option<TokenInfo>,
    quote_token: Option<TokenInfo>,
    i: int,
)
    requires
        refresh_error(venue, accounts, base_token, quote_token) is None,
        0 <= i < refreshed(venue, accounts, base_token, quote_token).ext_data.len(),
    ensures
        ({
            let fresh = refreshed(venue, accounts, base_token, quote_token);
            &&& !missing(accounts, EXT_SLOT + i)
            &&& fresh.ext_data[i] == slot_data(accounts, EXT_SLOT + i)
            &&& fresh.ext_keys[i] == update_keys(venue)[EXT_SLOT + i]
        }),
{
    assert(venue.ext_keys[i] == update_keys(venue)[EXT_SLOT + i]);
}

/// The dark cycle lasts one refresh: the next batch is fetched under the new
/// binding, and where it is complete and the binding has not changed again,
/// the external data covers it.
pub proof fn law_rebinding_recovers(
    dark: VenueState,
    accounts: Seq<Option<Account>>,
    base_token: Option<TokenInfo>,
    quote_token: Option<TokenInfo>,
)
    requires
        refresh_error(dark, accounts, base_token, quote_token) is None,
        ext_binding(slot_data(accounts, 0))->Ok_0 == dark.ext_keys,
        forall|i: int| EXT_SLOT <= i < accounts.len() ==> !#[trigger] missing(accounts, i),
    ensures
        ({
            let fresh = refreshed(dark, accounts, base_token, quote_token);
            &&& fresh.ext_keys == dark.ext_keys
            &&& fresh.ext_data.len() == fresh.ext_keys.len()
        }),
{
}

/// Refreshing twice with one batch is refreshing once, as long as the batch
/// does not rebind the external accounts.
pub proof fn law_refresh_idempotent(
    venue: VenueState,
    accounts: Seq<Option<Account>>,
    base_token: Option<TokenInfo>,
    quote_token: Option<TokenInfo>,
)
    requires
        refresh_error(venue, accounts, base_token, quote_token) is None,
        ext_binding(slot_data(accounts, 0))->Ok_0 == venue.ext_keys,
    ensures
        ({
            let once = refreshed(venue, accounts, base_token, quote_token);
            after_refresh(once, accounts, base_token, quote_token) == once
        }),
{
    let once = refreshed(venue, accounts, base_token, quote_token);
    assert(update_keys(once) =~= update_keys(venue));
    assert(refreshed(once, accounts, base_token, quote_token) =~= once);
}

/// A successful refresh takes everything from the batch: each cached blob is,
/// byte for byte, the account fetched in its slot, each flag and size is read
/// off those bytes, the clock is the one in slot 8, and the metadata is what
/// came with the batch, base first.
pub proof fn law_refresh_takes_the_batch(
    venue: VenueState,
    accounts: Seq<Option<Account>>,
    base_token: Option<TokenInfo>,
    quote_token: Option<TokenInfo>,
)
    requires
        refresh_error(venue, accounts, base_token, quote_token) is None,
    ensures
        ({
            let fresh = refreshed(venue, accounts, base_token, quote_token);
            let strategy = accounts[0]->0.data@;
            let market_maker = accounts[1]->0.data@;
            let config = accounts[3]->0.data@;
            let clock = accounts[8]->0.data@;
            let seconds = le_value(clock.subrange(32, 40));
            &&& fresh.strategy_data == strategy
            &&& fresh.mm_data == market_maker
            &&& fresh.quotes_data == accounts[2]->0.data@
            &&& fresh.global_config_data == config
            &&& fresh.strategy_frozen_admin == strategy[4]
            &&& fresh.strategy_frozen == strategy[5]
            &&& fresh.routing_flags == strategy[160]
            &&& fresh.price_probe_base == le_value(strategy.subrange(161, 169))
            &&& fresh.price_probe_quote == le_value(strategy.subrange(169, 177))
            &&& fresh.mm_frozen_admin == market_maker[2]
            &&& fresh.mm_halted_admin == market_maker[3]
            &&& fresh.mm_frozen == market_maker[4]
            &&& fresh.cfg_swap_halted == config[2]
            &&& fresh.cfg_protocol_halted == config[3]
            &&& fresh.tokens.len() == 2
            &&& Some(fresh.tokens[0]) == base_token
            &&& Some(fresh.tokens[1]) == quote_token
            &&& fresh.current_slot == le_value(clock.subrange(0, 8))
            &&& fresh.current_unix_sec == if seconds < 0x8000_0000_0000_0000 {
                seconds
            } else {
                seconds - 0x1_0000_0000_0000_0000
            }
        }),
{
    let strategy = accounts[0]->0.data@;
    let clock = accounts[8]->0.data@;
    lemma_pow_256_8();
    lemma_le_value_bound(strategy.subrange(161, 169));
    lemma_le_value_bound(strategy.subrange(169, 177));
    lemma_le_value_bound(clock.subrange(0, 8));
    lemma_le_value_bound(clock.subrange(32, 40));
}

/// A refresh forgets the past: two venues of the same strategy that bind the
/// same external accounts, whatever else they hold, fail alike on a batch,
/// and are the same venue after one that succeeds.
pub proof fn law_refresh_forgets_the_past(
    a: VenueState,
    b: VenueState,
    accounts: Seq<Option<Account>>,
    base_token: Option<TokenInfo>,
    quote_token: Option<TokenInfo>,
)
    requires
        a.program_id == b.program_id,
        a.strategy_key == b.strategy_key,
        a.mm_key == b.mm_key,
        a.quotes_key == b.quotes_key,
        a.global_config_key == b.global_config_key,
        a.base_mint == b.base_mint,
        a.quote_mint == b.quote_mint,
        a.vault_base_key == b.vault_base_key,
        a.vault_quote_key == b.vault_quote_key,
        a.ext_keys == b.ext_keys,
    ensures
        refresh_error(a, accounts, base_token, quote_token) == refresh_error(
            b,
            accounts,
            base_token,
            quote_token,
        ),
        refresh_error(a, accounts, base_token, quote_token) is None ==> refreshed(
            a,
            accounts,
            base_token,
            quote_token,
        ) == refreshed(b, accounts, base_token, quote_token),
{
    assert(update_keys(a) =~= update_keys(b));
    assert(refreshed(a, accounts, base_token, quote_token) =~= refreshed(
        b,
        accounts,
        base_token,
        quote_token,
    ));
}

/// External data is published for all bound accounts or for none: for all
/// exactly where the fetched strategy still binds the keys that the batch was
/// fetched for and each of these accounts was found, and then it is theirs,
/// in order.
pub proof fn law_ext_data_is_all_or_nothing(
    venue: VenueState,
    accounts: Seq<Option<Account>>,
    base_token: Option<TokenInfo>,
    quote_token: Option<TokenInfo>,
)
    requires
        refresh_error(venue, accounts, base_token, quote_token) is None,
    ensures
        ({
            let fresh = refreshed(venue, accounts, base_token, quote_token);
            let n = venue.ext_keys.len();
            let complete = fresh.ext_keys == venue.ext_keys && forall|i: int|
                9 <= i < 9 + n ==> (#[trigger] accounts[i]) is Some;
            &&& ext_binding(accounts[0]->0.data@) == Ok::<Seq<Pubkey>, DecodeError>(fresh.ext_keys)
            &&& accounts.len() == 9 + n
            &&& complete ==> {
                &&& fresh.ext_data.len() == n
                &&& forall|i: int|
                    0 <= i < n ==> #[trigger] fresh.ext_data[i] == accounts[9 + i]->0.data@
            }
            &&& !complete ==> fresh.ext_data.len() == 0
        }),
{
    let n = venue.ext_keys.len();
    assert(forall|i: int|
        9 <= i < 9 + n ==> (#[trigger] missing(accounts, i) <==> accounts[i] is None));
    if forall|i: int| 9 <= i < 9 + n ==> (#[trigger] accounts[i]) is Some {
        assert(forall|i: int| 9 <= i < 9 + n ==> !#[trigger] missing(accounts, i));
    } else {
        let i = choose|i: int| 9 <= i < 9 + n && (#[trigger] accounts[i]) is None;
        assert(missing(accounts, i));
    }
}

/// What a refresh reports: the first thing that is wrong, in the order of the
/// slots, with the mint metadata after both mints and the external binding
/// last. It succeeds exactly where nothing is wrong.
pub proof fn law_refresh_reports_the_first_fault(
    venue: VenueState,
    accounts: Seq<Option<Account>>,
    base_token: Option<TokenInfo>,
    quote_token: Option<TokenInfo>,
)
    ensures
        ({
            let error = refresh_error(venue, accounts, base_token, quote_token);
            let strategy = strategy_header(accounts[0]->0.data@);
            let market_maker = market_maker_header(accounts[1]->0.data@);
            let config = global_config(accounts[3]->0.data@);
            let binding = ext_binding(accounts[0]->0.data@);
            let sized = accounts.len() == 9 + venue.ext_keys.len();
            let to_strategy = sized && accounts[0] is Some;
            let to_market_maker = to_strategy && strategy is Ok && accounts[1] is Some;
            let to_quotes = to_market_maker && market_maker is Ok && accounts[2] is Some;
            let to_config = to_quotes && accounts[3] is Some;
            let to_base = to_config && config is Ok && accounts[4] is Some;
            let to_quote = to_base && accounts[5] is Some;
            let to_tokens = to_quote && base_token is Some && quote_token is Some;
            let to_vaults = to_tokens && accounts[6] is Some && accounts[7] is Some;
            let to_clock = to_vaults && accounts[8] is Some;
            let to_binding = to_clock && accounts[8]->0.data@.len() >= 40;
            &&& !sized ==> error == Some(TradingVenueError::FailedToFetchMultipleAccountData)
            &&& sized && accounts[0] is None ==> error == Some(
                TradingVenueError::NoAccountFound(venue.strategy_key),
            )
            &&& to_strategy && strategy is Err ==> error == Some(
                TradingVenueError::DeserializationFailed(
                    DecodeFailure::StrategyHeader(strategy->Err_0),
                ),
            )
            &&& to_strategy && strategy is Ok && accounts[1] is None ==> error == Some(
                TradingVenueError::NoAccountFound(venue.mm_key),
            )
            &&& to_market_maker && market_maker is Err ==> error == Some(
                TradingVenueError::DeserializationFailed(
                    DecodeFailure::MarketMakerHeader(market_maker->Err_0),
                ),
            )
            &&& to_market_maker && market_maker is Ok && accounts[2] is None ==> error == Some(
                TradingVenueError::NoAccountFound(venue.quotes_key),
            )
            &&& to_quotes && accounts[3] is None ==> error == Some(
                TradingVenueError::NoAccountFound(venue.global_config_key),
            )
            &&& to_config && config is Err ==> error == Some(
                TradingVenueError::DeserializationFailed(
                    DecodeFailure::GlobalConfig(config->Err_0),
                ),
            )
            &&& to_config && config is Ok && accounts[4] is None ==> error == Some(
                TradingVenueError::NoAccountFound(venue.base_mint),
            )
            &&& to_base && accounts[5] is None ==> error == Some(
                TradingVenueError::NoAccountFound(venue.quote_mint),
            )
            &&& to_quote && base_token is None ==> error == Some(
                TradingVenueError::DeserializationFailed(DecodeFailure::TokenMint(Leg::Base)),
            )
            &&& to_quote && base_token is Some && quote_token is None ==> error == Some(
                TradingVenueError::DeserializationFailed(DecodeFailure::TokenMint(Leg::Quote)),
            )
            &&& to_tokens && accounts[6] is None ==> error == Some(
                TradingVenueError::NoAccountFound(venue.vault_base_key),
            )
            &&& to_tokens && accounts[6] is Some && accounts[7] is None ==> error == Some(
                TradingVenueError::NoAccountFound(venue.vault_quote_key),
            )
            &&& to_vaults && accounts[8] is None ==> error == Some(
                TradingVenueError::NoAccountFound(key_of(clock_sysvar_bytes())),
            )
            &&& to_clock && accounts[8]->0.data@.len() < 40 ==> error == Some(
                TradingVenueError::DeserializationFailed(DecodeFailure::ClockTooShort),
            )
            &&& to_binding && binding is Err ==> error == Some(
                TradingVenueError::DeserializationFailed(
                    DecodeFailure::ExtBinding(binding->Err_0),
                ),
            )
            &&& to_binding && binding is Ok <==> error is None
        }),
{
}

/// The keys that a refresh asks for, slot by slot, are the accounts that it
/// reads from these slots.
pub proof fn law_update_keys(venue: VenueState)
    ensures
        ({
            let keys = update_keys(venue);
            &&& keys.len() == 9 + venue.ext_keys.len()
            &&& keys[0] == venue.strategy_key
            &&& keys[1] == venue.mm_key
            &&& keys[2] == venue.quotes_key
            &&& keys[3] == venue.global_config_key
            &&& keys[4] == venue.base_mint
            &&& keys[5] == venue.quote_mint
            &&& keys[6] == venue.vault_base_key
            &&& keys[7] == venue.vault_quote_key
            &&& keys[8]@ == clock_sysvar_bytes()
            &&& forall|i: int|
                0 <= i < venue.ext_keys.len() ==> keys[9 + i] == #[trigger] venue.ext_keys[i]
        }),
{
    lemma_key_bytes(clock_sysvar_bytes());
}

/// A header that decodes reads each field at its place in the account bytes,
/// and decoding asks for nothing but the length and the type byte.
pub proof fn law_headers_read_the_bytes(data: Seq<u8>)
    ensures
        strategy_header(data) is Ok <==> data.len() >= 256 && data[0] == 3,
        market_maker_header(data) is Ok <==> data.len() >= 64 && data[0] == 4,
        global_config(data) is Ok <==> data.len() >= 128 && data[0] == 1,
        strategy_header(data) matches Ok(header) ==> {
            &&& header.frozen_admin == data[4]
            &&& header.frozen == data[5]
            &&& header.owner@ == data.subrange(8, 40)
            &&& header.base_mint@ == data.subrange(40, 72)
            &&& header.quote_mint@ == data.subrange(72, 104)
            &&& header.quotes_account@ == data.subrange(104, 136)
            &&& header.routing_flags == data[160]
            &&& header.price_probe_base == le_value(data.subrange(161, 169))
            &&& header.price_probe_quote == le_value(data.subrange(169, 177))
        },
        market_maker_header(data) matches Ok(header) ==> {
            &&& header.frozen_admin == data[2]
            &&& header.halted_admin == data[3]
            &&& header.frozen == data[4]
        },
        global_config(data) matches Ok(config) ==> {
            &&& config.swap_halted == data[2]
            &&& config.protocol_halted == data[3]
        },
{
    if data.len() >= 256 {
        lemma_key_bytes(data.subrange(8, 40));
        lemma_key_bytes(data.subrange(40, 72));
        lemma_key_bytes(data.subrange(72, 104));
        lemma_key_bytes(data.subrange(104, 136));
        lemma_pow_256_8();
        lemma_le_value_bound(data.subrange(161, 169));
        lemma_le_value_bound(data.subrange(169, 177));
    }
}

/// A binding that decodes has as many keys as byte 181 says, and the `i`-th
/// is the `i`-th 32 bytes of the key block, which starts at the declared
/// offset in the userspace, behind the header and the bytecode.
pub proof fn law_binding_reads_the_userspace(data: Seq<u8>, i: int)
    requires
        strategy_header(data) is Ok,
        ext_binding(data) is Ok,
    ensures
        ({
            let keys = ext_binding(data)->Ok_0;
            let block = 256 + le_value(data.subrange(144, 148)) + le_value(
                data.subrange(177, 181),
            );
            &&& keys.len() == data[181] <= 4
            &&& 0 <= i < keys.len() ==> keys[i]@ == data.subrange(
                block + 32 * i,
                block + 32 * i + 32,
            )
        }),
{
    lemma_pow_256_4();
    lemma_le_value_bound(data.subrange(144, 148));
    lemma_le_value_bound(data.subrange(148, 152));
    lemma_le_value_bound(data.subrange(177, 181));
    let keys = ext_binding(data)->Ok_0;
    let block = 256 + le_value(data.subrange(144, 148)) + le_value(data.subrange(177, 181));
    if 0 <= i < keys.len() {
        lemma_key_bytes(data.subrange(block + 32 * i, block + 32 * i + 32));
    }
}

/// A binding decodes exactly where it is empty, or has at most four keys, in
/// an account that holds all it declares, in a key block that ends within the
/// userspace.
pub proof fn law_binding_acceptance(data: Seq<u8>)
    requires
        strategy_header(data) is Ok,
        data.len() <= usize::MAX,
    ensures
        ({
            let bytecode = le_value(data.subrange(144, 148));
            let userspace = le_value(data.subrange(148, 152));
            let block = le_value(data.subrange(177, 181));
            ext_binding(data) is Ok <==> data[181] == 0 || {
                &&& data[181] <= 4
                &&& 256 + bytecode + userspace <= data.len()
                &&& block + 32 * data[181] <= userspace
            }
        }),
{
    lemma_pow_256_4();
    lemma_le_value_bound(data.subrange(144, 148));
    lemma_le_value_bound(data.subrange(148, 152));
    lemma_le_value_bound(data.subrange(177, 181));
}

/// A venue is built from the strategy account alone: its pair, its quotes
/// account, its routing bits and its probes are read off the bytes, the market
/// maker is derived from the owner in them, config and vaults from the owning
/// program, and nothing that a refresh supplies is there yet.
pub proof fn law_built_from_the_account(key: Pubkey, owner: Pubkey, data: Seq<u8>)
    requires
        build_error(data) is None,
    ensures
        ({
            let venue = built(key, owner, data);
            let maker = key_of(
                program_address(seq![seed_mm(), data.subrange(8, 40)], owner@),
            );
            &&& venue.program_id == owner
            &&& venue.strategy_key == key
            &&& venue.strategy_data == data
            &&& venue.mm_key == maker
            &&& venue.global_config_key == key_of(program_address(seq![seed_global()], owner@))
            &&& venue.base_mint@ == data.subrange(40, 72)
            &&& venue.quote_mint@ == data.subrange(72, 104)
            &&& venue.quotes_key@ == data.subrange(104, 136)
            &&& venue.vault_base_key == key_of(
                program_address(seq![seed_vault(), maker@, data.subrange(40, 72)], owner@),
            )
            &&& venue.vault_quote_key == key_of(
                program_address(seq![seed_vault(), maker@, data.subrange(72, 104)], owner@),
            )
            &&& ext_binding(data) == Ok::<Seq<Pubkey>, DecodeError>(venue.ext_keys)
            &&& venue.routing_flags == data[160]
            &&& venue.price_probe_base == le_value(data.subrange(161, 169))
            &&& venue.price_probe_quote == le_value(data.subrange(169, 177))
            &&& venue.mm_data.len() == 0 && venue.quotes_data.len() == 0
            &&& venue.global_config_data.len() == 0 && venue.ext_data.len() == 0
            &&& venue.tokens.len() == 0
            &&& venue.cfg_swap_halted == 1 && venue.cfg_protocol_halted == 1
            &&& venue.strategy_frozen == 1 && venue.strategy_frozen_admin == 1
            &&& venue.mm_frozen == 1 && venue.mm_frozen_admin == 1 && venue.mm_halted_admin == 1
            &&& venue.current_slot == 0 && venue.current_unix_sec == 0
        }),
{
    law_headers_read_the_bytes(data);
}

/// What building reports: a header that does not decode, else a binding that
/// does not; it succeeds exactly where both do.
pub proof fn law_build_refusals(data: Seq<u8>)
    ensures
        ({
            let error = build_error(data);
            let header = strategy_header(data);
            let binding = ext_binding(data);
            &&& header is Err ==> error == Some(
                TradingVenueError::DeserializationFailed(
                    DecodeFailure::StrategyHeader(header->Err_0),
                ),
            )
            &&& header is Ok && binding is Err ==> error == Some(
                TradingVenueError::DeserializationFailed(
                    DecodeFailure::ExtBinding(binding->Err_0),
                ),
            )
            &&& header is Ok && binding is Ok <==> error is None
        }),
{
}

} // verus!
