use quay_sdk::dsl::BytecodeBuilder;
use quay_sdk::{consts, ix, pda};
use quay_venue::quote::{marginal_price, sized_quote, spot_quote, ROUTED_IX_DEPTH};
use quay_venue::sdk;
use quay_venue::types::{
    Account, DecodeError, DecodeFailure, Leg, PoolProtocol, Price, QuoteRequest, QuoteResult,
    SwapType, TokenInfo, TokenProgram, TradingVenueError,
};
use quay_venue::{Pubkey, QuayVenue};

// ---- Fixtures -------------------------------------------------------------

fn key(k: solana_pubkey::Pubkey) -> Pubkey {
    Pubkey { bytes: k.to_bytes() }
}

fn solana(k: &Pubkey) -> solana_pubkey::Pubkey {
    solana_pubkey::Pubkey::new_from_array(k.bytes)
}

fn unique() -> Pubkey {
    key(solana_pubkey::Pubkey::new_unique())
}

fn clock_id() -> Pubkey {
    key(solana_sdk_ids::sysvar::clock::ID)
}

/// A venue with every halt / freeze byte cleared: `halts_clear()` returns
/// true, and with the state blobs filled `initialized()` returns true.
fn all_active_venue() -> QuayVenue {
    QuayVenue {
        program_id: unique(),
        strategy_key: unique(),
        strategy_data: vec![0u8; 1],
        mm_key: unique(),
        mm_data: vec![0u8; 1],
        quotes_key: unique(),
        quotes_data: vec![0u8; 1],
        global_config_key: unique(),
        global_config_data: vec![0u8; 1],
        base_mint: unique(),
        quote_mint: unique(),
        vault_base_key: unique(),
        vault_quote_key: unique(),
        ext_keys: Vec::new(),
        ext_data: Vec::new(),
        tokens: Vec::new(),
        routing_flags: consts::ROUTE_TITAN,
        cfg_swap_halted: 0,
        cfg_protocol_halted: 0,
        strategy_frozen: 0,
        strategy_frozen_admin: 0,
        mm_frozen: 0,
        mm_frozen_admin: 0,
        mm_halted_admin: 0,
        price_probe_base: 0,
        price_probe_quote: 0,
        current_slot: 0,
        current_unix_sec: 0,
    }
}

/// Everything that a strategy's accounts hold on chain.
#[derive(Clone)]
struct Market {
    program_id: Pubkey,
    strategy_key: Pubkey,
    owner: Pubkey,
    base_mint: Pubkey,
    quote_mint: Pubkey,
    quotes_key: Pubkey,
    routing_flags: u8,
    probe_base: u64,
    probe_quote: u64,
    bytecode: Vec<u8>,
    ext_keys: Vec<Pubkey>,
    inventory_base: u64,
    inventory_quote: u64,
    slot: u64,
    unix_sec: i64,
}

/// `2 * size` output atoms, whatever the side.
fn doubling_curve() -> Vec<u8> {
    BytecodeBuilder::new().load_size().load_const(2).mul().halt().build()
}

fn market() -> Market {
    Market {
        program_id: unique(),
        strategy_key: unique(),
        owner: unique(),
        base_mint: unique(),
        quote_mint: unique(),
        quotes_key: unique(),
        routing_flags: consts::ROUTE_TITAN,
        probe_base: 10,
        probe_quote: 1_000,
        bytecode: doubling_curve(),
        ext_keys: Vec::new(),
        inventory_base: 1_000_000,
        inventory_quote: 1_000_000,
        slot: 77,
        unix_sec: 1_700_000_000,
    }
}

impl Market {
    fn strategy_data(&self) -> Vec<u8> {
        let mut d = vec![0u8; 256];
        d[0] = consts::STRATEGY_DISCRIMINATOR;
        d[8..40].copy_from_slice(&self.owner.bytes);
        d[40..72].copy_from_slice(&self.base_mint.bytes);
        d[72..104].copy_from_slice(&self.quote_mint.bytes);
        d[104..136].copy_from_slice(&self.quotes_key.bytes);
        d[138..140].copy_from_slice(&1u16.to_le_bytes()); // quote_id
        let userspace_len = 8 + 32 * self.ext_keys.len() as u32;
        d[144..148].copy_from_slice(&(self.bytecode.len() as u32).to_le_bytes());
        d[148..152].copy_from_slice(&userspace_len.to_le_bytes());
        d[160] = self.routing_flags;
        d[161..169].copy_from_slice(&self.probe_base.to_le_bytes());
        d[169..177].copy_from_slice(&self.probe_quote.to_le_bytes());
        d[177..181].copy_from_slice(&8u32.to_le_bytes());
        d[181] = self.ext_keys.len() as u8;
        d.extend_from_slice(&self.bytecode);
        d.extend_from_slice(&[0u8; 8]);
        for k in &self.ext_keys {
            d.extend_from_slice(&k.bytes);
        }
        d
    }

    fn mm_data(&self) -> Vec<u8> {
        let mut d = vec![0u8; 64 + 2 * 48];
        d[0] = consts::MARKET_MAKER_DISCRIMINATOR;
        d[40..44].copy_from_slice(&2u32.to_le_bytes()); // asset_count
        d[64 + 32..64 + 40].copy_from_slice(&self.inventory_base.to_le_bytes());
        d[112 + 32..112 + 40].copy_from_slice(&self.inventory_quote.to_le_bytes());
        d
    }

    fn quotes_data(&self) -> Vec<u8> {
        let mut d = vec![0u8; consts::QUOTES_ACCOUNT_SIZE];
        d[0] = consts::QUOTES_DISCRIMINATOR;
        d[40..48].copy_from_slice(&5u64.to_le_bytes()); // updated_ts
        d
    }

    fn config_data(&self) -> Vec<u8> {
        let mut d = vec![0u8; 128];
        d[0] = consts::GLOBAL_CONFIG_DISCRIMINATOR;
        d
    }

    fn clock_data(&self) -> Vec<u8> {
        let mut d = vec![0xABu8; 40];
        d[0..8].copy_from_slice(&self.slot.to_le_bytes());
        d[32..40].copy_from_slice(&self.unix_sec.to_le_bytes());
        d
    }

    fn strategy_account(&self) -> Account {
        Account { owner: self.program_id, data: self.strategy_data() }
    }

    fn venue(&self) -> QuayVenue {
        QuayVenue::from_account(&self.strategy_key, &self.strategy_account()).unwrap()
    }

    fn account(&self, data: Vec<u8>) -> Option<Account> {
        Some(Account { owner: self.program_id, data })
    }

    fn batch(&self) -> Vec<Option<Account>> {
        let mut batch = vec![
            self.account(self.strategy_data()),
            self.account(self.mm_data()),
            self.account(self.quotes_data()),
            self.account(self.config_data()),
            self.account(vec![1]),
            self.account(vec![2]),
            self.account(vec![]),
            self.account(vec![]),
            self.account(self.clock_data()),
        ];
        for (i, _) in self.ext_keys.iter().enumerate() {
            batch.push(self.account(vec![40 + i as u8, 0, 0, 0, 0, 0, 0, 0]));
        }
        batch
    }

    fn base_token(&self) -> Option<TokenInfo> {
        Some(TokenInfo { pubkey: self.base_mint, decimals: 9, program: TokenProgram::SplToken })
    }

    fn quote_token(&self) -> Option<TokenInfo> {
        Some(TokenInfo { pubkey: self.quote_mint, decimals: 6, program: TokenProgram::Token2022 })
    }

    fn refresh(&self, venue: &mut QuayVenue) -> Result<(), TradingVenueError> {
        venue.refresh_state(&self.batch(), self.base_token(), self.quote_token())
    }

    /// The venue after one successful refresh.
    fn live_venue(&self) -> QuayVenue {
        let mut venue = self.venue();
        self.refresh(&mut venue).unwrap();
        venue
    }

    fn sell(&self, amount: u64) -> QuoteRequest {
        QuoteRequest {
            input_mint: self.base_mint,
            output_mint: self.quote_mint,
            amount,
            swap_type: SwapType::ExactIn,
        }
    }

    fn buy(&self, amount: u64) -> QuoteRequest {
        QuoteRequest { input_mint: self.quote_mint, output_mint: self.base_mint, ..self.sell(amount) }
    }
}

fn price(numerator: u64, denominator: u64) -> Price {
    Price { numerator, denominator }
}

/// Everything of a venue that a refresh could change.
fn snapshot(v: &QuayVenue) -> String {
    format!("{v:?}")
}

fn failed<T>(failure: DecodeFailure) -> Result<T, TradingVenueError> {
    Err(TradingVenueError::DeserializationFailed(failure))
}

// ---- Constants and addresses ----------------------------------------------

#[test]
fn wire_constants_are_the_sdk_constants() {
    assert_eq!(sdk::DISC_INIT_STRATEGY, consts::DISC_INIT_STRATEGY);
    assert_eq!(sdk::DISC_SWAP, consts::DISC_SWAP);
    assert_eq!(sdk::ROUTE_TITAN, consts::ROUTE_TITAN);
    assert_eq!(sdk::SIDE_SELL_BASE, consts::SIDE_SELL_BASE);
    assert_eq!(sdk::SIDE_BUY_BASE, consts::SIDE_BUY_BASE);
    assert_eq!(sdk::STRATEGY_HEADER_SIZE, consts::STRATEGY_HEADER_SIZE);
    assert_eq!(sdk::MARKET_MAKER_HEADER_SIZE, consts::MARKET_MAKER_HEADER_SIZE);
    assert_eq!(sdk::GLOBAL_CONFIG_SIZE, consts::GLOBAL_CONFIG_SIZE);
    assert_eq!(sdk::STRATEGY_DISCRIMINATOR, consts::STRATEGY_DISCRIMINATOR);
    assert_eq!(sdk::MARKET_MAKER_DISCRIMINATOR, consts::MARKET_MAKER_DISCRIMINATOR);
    assert_eq!(sdk::GLOBAL_CONFIG_DISCRIMINATOR, consts::GLOBAL_CONFIG_DISCRIMINATOR);
    assert_eq!(sdk::MAX_EXT_ACCOUNTS, consts::MAX_EXT_ACCOUNTS);
    assert_eq!(sdk::MAX_USERSPACE_LEN, consts::MAX_USERSPACE_LEN as usize);
}

#[test]
fn program_ids_decode_from_base_58() {
    let quay = solana_pubkey::Pubkey::from_str_const("QUayE6nexQWYNZAEqfN8FxoNwQDSu3CAzT2qq9J1ArG");
    let titan = solana_pubkey::Pubkey::from_str_const("T1TANpTeScyeqVzzgNViGDNrkQ6qHz9KrSBS4aNXvGT");
    assert_eq!(sdk::QUAY_PROGRAM_ID, quay.to_bytes());
    assert_eq!(sdk::TITAN_ROUTER_ID, titan.to_bytes());
}

#[test]
fn dependencies_are_the_token_and_system_programs() {
    let keys = all_active_venue().program_dependencies();
    assert_eq!(
        keys,
        vec![
            key(solana_pubkey::Pubkey::from_str_const("TokenkegQfeZyiNwAJbNbGKPFXCWuBvf9Ss623VQ5DA")),
            key(solana_pubkey::Pubkey::from_str_const("TokenzQdBNbLqP5VEhdkAS6EPFLC1PHnBqCXEpPxuEb")),
            Pubkey { bytes: [0u8; 32] },
        ]
    );
}

#[test]
fn pubkey_equality_compares_every_byte() {
    let a = Pubkey { bytes: [7u8; 32] };
    for i in 0..32 {
        let mut b = a;
        b.bytes[i] = 8;
        assert!(a != b);
        b.bytes[i] = 7;
        assert!(a == b);
    }
}

// ---- Routing gate ---------------------------------------------------------

#[test]
fn initialized_true_when_state_loaded_and_halts_clear() {
    assert!(all_active_venue().initialized());
}

/// One row of the halt-gate property table.
type HaltCase = (&'static str, fn(&mut QuayVenue));

#[test]
fn initialized_false_when_any_single_halt_set() {
    let cases: &[HaltCase] = &[
        ("cfg_swap_halted", |v| v.cfg_swap_halted = 1),
        ("cfg_protocol_halted", |v| v.cfg_protocol_halted = 1),
        ("strategy_frozen", |v| v.strategy_frozen = 1),
        ("strategy_frozen_admin", |v| v.strategy_frozen_admin = 1),
        ("mm_frozen", |v| v.mm_frozen = 1),
        ("mm_frozen_admin", |v| v.mm_frozen_admin = 1),
        ("mm_halted_admin", |v| v.mm_halted_admin = 1),
    ];
    for (name, set) in cases {
        let mut venue = all_active_venue();
        set(&mut venue);
        assert!(!venue.initialized(), "flag {name}=1 should fail initialized()");
    }
}

#[test]
fn initialized_false_when_state_missing() {
    let mut venue = all_active_venue();
    venue.mm_data.clear();
    assert!(!venue.initialized(), "empty mm_data should fail initialized()");
}

#[test]
fn initialized_false_when_any_blob_missing() {
    let mut venue = all_active_venue();
    venue.quotes_data.clear();
    assert!(!venue.initialized());
    let mut venue = all_active_venue();
    venue.global_config_data.clear();
    assert!(!venue.initialized());
    let mut venue = all_active_venue();
    venue.ext_keys.push(unique());
    assert!(!venue.initialized());
    venue.ext_data.push(Vec::new());
    assert!(venue.initialized());
}

#[test]
fn initialized_false_when_not_titan_routed() {
    // The MM must opt a strategy into Titan via `routing_flags & ROUTE_TITAN`.
    let mut venue = all_active_venue();
    venue.routing_flags = 0;
    assert!(!venue.initialized(), "no routing bits set must not route");
    venue.routing_flags = 0x02; // ROUTE_JUPITER only, not Titan.
    assert!(!venue.initialized(), "another router's bit alone must not enable Titan");
    venue.routing_flags = consts::ROUTE_TITAN | 0x02;
    assert!(venue.initialized(), "ROUTE_TITAN set (with others) routes");
}

#[test]
fn only_the_lowest_routing_bit_counts() {
    let mut venue = all_active_venue();
    for flags in 0..=255u8 {
        venue.routing_flags = flags;
        assert_eq!(venue.initialized(), flags % 2 == 1);
    }
}

// ---- Building -------------------------------------------------------------

#[test]
fn from_account_reads_the_header_and_derives_addresses() {
    let m = market();
    let v = m.venue();
    assert_eq!(v.program_id(), m.program_id);
    assert_eq!(v.market_id(), m.strategy_key);
    assert_eq!(v.protocol(), PoolProtocol::Quay);
    assert!(v.get_token_info().is_empty());
    assert_eq!(v.base_mint, m.base_mint);
    assert_eq!(v.quote_mint, m.quote_mint);
    assert_eq!(v.quotes_key, m.quotes_key);
    assert_eq!(v.routing_flags, 1);
    assert_eq!((v.price_probe_base, v.price_probe_quote), (10, 1_000));
    assert_eq!(v.strategy_data, m.strategy_data());
    assert!(v.ext_keys.is_empty());

    let program = solana(&m.program_id);
    let (mm, _) = pda::market_maker_pda(&program, &solana(&m.owner));
    assert_eq!(v.mm_key, key(mm));
    assert_eq!(v.global_config_key, key(pda::global_config_pda(&program).0));
    assert_eq!(v.vault_base_key, key(pda::vault_pda(&program, &mm, &solana(&m.base_mint)).0));
    assert_eq!(v.vault_quote_key, key(pda::vault_pda(&program, &mm, &solana(&m.quote_mint)).0));
    assert_eq!(
        key(solana_pubkey::Pubkey::find_program_address(&[b"mm", &m.owner.bytes], &program).0),
        v.mm_key
    );
}

#[test]
fn header_fields_stand_where_the_sdk_reads_them() {
    let mut data = market().strategy_data();
    for (i, byte) in data[1..256].iter_mut().enumerate() {
        *byte = (i as u8).wrapping_mul(37).wrapping_add(11);
    }
    data[181] = 0;
    let h = *quay_sdk::state::StrategyHeader::try_from_account(&data).unwrap();
    let v = QuayVenue::from_account(&unique(), &Account { owner: unique(), data: data.clone() }).unwrap();
    assert_eq!(v.base_mint.bytes, h.base_mint);
    assert_eq!(v.quote_mint.bytes, h.quote_mint);
    assert_eq!(v.quotes_key.bytes, h.quotes_account);
    assert_eq!(v.routing_flags, h.routing_flags);
    let (base, quote) = (h.price_probe_base, h.price_probe_quote);
    assert_eq!((v.price_probe_base, v.price_probe_quote), (base, quote));
    let mut raw = [0u8; 8];
    raw.copy_from_slice(&data[161..169]);
    assert_eq!(v.price_probe_base, u64::from_le_bytes(raw));
    raw.copy_from_slice(&data[169..177]);
    assert_eq!(v.price_probe_quote, u64::from_le_bytes(raw));
}

#[test]
fn fresh_venue_is_not_initialized() {
    let v = market().venue();
    assert!(!v.initialized());
    assert!(!v.halts_clear());
    assert!(!v.has_all_state());
    assert_eq!((v.current_slot, v.current_unix_sec), (0, 0));
}

#[test]
fn from_account_rejects_short_and_foreign_accounts() {
    let m = market();
    let mut account = m.strategy_account();
    account.data.truncate(255);
    assert_eq!(
        QuayVenue::from_account(&m.strategy_key, &account).err(),
        failed::<()>(DecodeFailure::StrategyHeader(DecodeError::AccountTooSmall {
            got: 255,
            need: 256
        }))
        .err()
    );
    let mut account = m.strategy_account();
    account.data[0] = 9;
    assert_eq!(
        QuayVenue::from_account(&m.strategy_key, &account).err(),
        failed::<()>(DecodeFailure::StrategyHeader(DecodeError::BadDiscriminator {
            got: 9,
            expected: 3
        }))
        .err()
    );
}

#[test]
fn from_account_reads_the_external_binding() {
    let mut m = market();
    m.ext_keys = (0..4).map(|_| unique()).collect();
    let v = m.venue();
    assert_eq!(v.ext_keys, m.ext_keys);
    assert!(v.ext_data.is_empty());
}

#[test]
fn from_account_rejects_bad_bindings() {
    let mut m = market();
    m.ext_keys = vec![unique()];
    let build = |data: Vec<u8>| {
        QuayVenue::from_account(&m.strategy_key, &Account { owner: m.program_id, data }).err()
    };
    let binding = |error: DecodeError| failed::<()>(DecodeFailure::ExtBinding(error)).err();

    let mut data = m.strategy_data();
    data[181] = 5;
    assert_eq!(build(data), binding(DecodeError::InvalidInput("ext account count exceeds cap")));

    let mut data = m.strategy_data();
    let need = data.len();
    data.pop();
    assert_eq!(
        build(data),
        binding(DecodeError::LogicalExtentExceedsAccount { got: need - 1, need })
    );

    let mut data = m.strategy_data();
    data[177] = 9; // one byte past the userspace's end
    assert_eq!(build(data), binding(DecodeError::InvalidInput("ext key block outside userspace")));
}

// ---- Refreshing -----------------------------------------------------------

#[test]
fn required_pubkeys_include_clock_sysvar() {
    let venue = all_active_venue();
    let keys = venue.get_required_pubkeys_for_update().unwrap();
    assert_eq!(keys.len(), 9);
    assert_eq!(keys[8], clock_id());
}

#[test]
fn required_pubkeys_come_in_decode_order() {
    let mut venue = all_active_venue();
    venue.ext_keys = vec![unique(), unique()];
    let v = &venue;
    assert_eq!(
        v.required_update_pubkeys().unwrap(),
        vec![
            v.strategy_key,
            v.mm_key,
            v.quotes_key,
            v.global_config_key,
            v.base_mint,
            v.quote_mint,
            v.vault_base_key,
            v.vault_quote_key,
            clock_id(),
            v.ext_keys[0],
            v.ext_keys[1],
        ]
    );
}

#[test]
fn refresh_commits_the_batch() {
    let m = market();
    let mut v = m.venue();
    let mut batch = m.batch();
    if let Some(a) = &mut batch[0] {
        a.data[4] = 21; // frozen_admin
        a.data[5] = 22; // frozen
        a.data[160] = 0x81;
        a.data[161] = 99;
    }
    if let Some(a) = &mut batch[1] {
        a.data[2] = 31; // frozen_admin
        a.data[3] = 32; // halted_admin
        a.data[4] = 33; // frozen
    }
    if let Some(a) = &mut batch[3] {
        a.data[2] = 41; // swap_halted
        a.data[3] = 42; // protocol_halted
    }
    assert_eq!(v.refresh_state(&batch, m.base_token(), m.quote_token()), Ok(()));
    assert_eq!((v.strategy_frozen_admin, v.strategy_frozen), (21, 22));
    assert_eq!((v.mm_frozen_admin, v.mm_halted_admin, v.mm_frozen), (31, 32, 33));
    assert_eq!((v.cfg_swap_halted, v.cfg_protocol_halted), (41, 42));
    assert_eq!((v.routing_flags, v.price_probe_base, v.price_probe_quote), (0x81, 99, 1_000));
    assert_eq!((v.current_slot, v.current_unix_sec), (77, 1_700_000_000));
    assert_eq!(Some(&v.strategy_data), batch[0].as_ref().map(|a| &a.data));
    assert_eq!(Some(&v.mm_data), batch[1].as_ref().map(|a| &a.data));
    assert_eq!(Some(&v.quotes_data), batch[2].as_ref().map(|a| &a.data));
    assert_eq!(Some(&v.global_config_data), batch[3].as_ref().map(|a| &a.data));
    assert_eq!(v.get_token_info(), &[m.base_token().unwrap(), m.quote_token().unwrap()]);
    assert!(!v.initialized());
}

#[test]
fn refresh_with_clear_halts_initializes() {
    let m = market();
    let v = m.live_venue();
    assert!(v.initialized());
    assert_eq!(v.mm_key, m.venue().mm_key);
}

#[test]
fn unrouted_strategy_stays_dark_after_refresh() {
    let mut m = market();
    m.routing_flags = 0;
    assert!(!m.live_venue().initialized());
}

#[test]
fn missing_accounts_are_reported_and_leave_the_venue_alone() {
    let m = market();
    let keys = m.venue().required_update_pubkeys().unwrap();
    for slot in 0..9 {
        let mut v = m.venue();
        let before = snapshot(&v);
        let mut batch = m.batch();
        batch[slot] = None;
        assert_eq!(
            v.refresh_state(&batch, m.base_token(), m.quote_token()),
            Err(TradingVenueError::NoAccountFound(keys[slot]))
        );
        assert_eq!(snapshot(&v), before);
        assert!(!v.initialized());
    }
}

#[test]
fn the_first_failing_slot_is_reported() {
    let m = market();
    let mut v = m.venue();
    let mut batch = m.batch();
    batch[2] = None;
    batch[8] = None;
    assert_eq!(
        v.refresh_state(&batch, None, None),
        Err(TradingVenueError::NoAccountFound(m.quotes_key))
    );
    batch[2] = m.account(m.quotes_data());
    assert_eq!(
        v.refresh_state(&batch, None, None),
        failed(DecodeFailure::TokenMint(Leg::Base))
    );
    assert_eq!(
        v.refresh_state(&batch, m.base_token(), None),
        failed(DecodeFailure::TokenMint(Leg::Quote))
    );
    assert_eq!(
        v.refresh_state(&batch, m.base_token(), m.quote_token()),
        Err(TradingVenueError::NoAccountFound(clock_id()))
    );
}

#[test]
fn refresh_rejects_a_batch_of_another_size() {
    let m = market();
    let mut v = m.live_venue();
    let before = snapshot(&v);
    let mut batch = m.batch();
    batch.push(None);
    assert_eq!(
        v.refresh_state(&batch, m.base_token(), m.quote_token()),
        Err(TradingVenueError::FailedToFetchMultipleAccountData)
    );
    assert_eq!(
        v.refresh_state(&Vec::new(), m.base_token(), m.quote_token()),
        Err(TradingVenueError::FailedToFetchMultipleAccountData)
    );
    assert_eq!(snapshot(&v), before);
}

#[test]
fn undecodable_accounts_are_reported_and_leave_the_venue_alone() {
    let mut m = market();
    m.ext_keys = vec![unique()];
    let cases = [
        (0, 0, DecodeFailure::StrategyHeader(DecodeError::AccountTooSmall { got: 0, need: 256 })),
        (1, 63, DecodeFailure::MarketMakerHeader(DecodeError::AccountTooSmall { got: 63, need: 64 })),
        (3, 127, DecodeFailure::GlobalConfig(DecodeError::AccountTooSmall { got: 127, need: 128 })),
        (8, 39, DecodeFailure::ClockTooShort),
        (
            0,
            256,
            DecodeFailure::ExtBinding(DecodeError::LogicalExtentExceedsAccount {
                got: 256,
                need: m.strategy_data().len(),
            }),
        ),
    ];
    for (slot, len, failure) in cases {
        let mut v = m.live_venue();
        let before = snapshot(&v);
        let mut batch = m.batch();
        if let Some(a) = &mut batch[slot] {
            a.data.truncate(len);
        }
        assert_eq!(
            v.refresh_state(&batch, m.base_token(), m.quote_token()),
            failed(failure)
        );
        assert_eq!(snapshot(&v), before);
    }
    let mut v = m.live_venue();
    let mut batch = m.batch();
    if let Some(a) = &mut batch[1] {
        a.data[0] = 3;
    }
    assert_eq!(
        v.refresh_state(&batch, m.base_token(), m.quote_token()),
        failed(DecodeFailure::MarketMakerHeader(DecodeError::BadDiscriminator {
            got: 3,
            expected: 4
        }))
    );
    let mut batch = m.batch();
    if let Some(a) = &mut batch[3] {
        a.data[0] = 3;
    }
    assert_eq!(
        v.refresh_state(&batch, m.base_token(), m.quote_token()),
        failed(DecodeFailure::GlobalConfig(DecodeError::BadDiscriminator { got: 3, expected: 1 }))
    );
}

#[test]
fn refresh_twice_is_refresh_once() {
    let mut m = market();
    m.ext_keys = vec![unique(), unique()];
    let once = m.live_venue();
    let mut twice = once.clone();
    m.refresh(&mut twice).unwrap();
    assert_eq!(snapshot(&once), snapshot(&twice));
}

#[test]
fn external_data_follows_the_binding() {
    let mut m = market();
    m.ext_keys = vec![unique(), unique()];
    let v = m.live_venue();
    assert!(v.initialized());
    assert_eq!(v.ext_data, vec![vec![40, 0, 0, 0, 0, 0, 0, 0], vec![41, 0, 0, 0, 0, 0, 0, 0]]);
}

#[test]
fn missing_external_account_goes_dark() {
    let mut m = market();
    m.ext_keys = vec![unique(), unique()];
    for slot in [9, 10] {
        let mut v = m.live_venue();
        let mut batch = m.batch();
        batch[slot] = None;
        assert_eq!(v.refresh_state(&batch, m.base_token(), m.quote_token()), Ok(()));
        assert!(v.ext_data.is_empty());
        assert!(!v.initialized());
        m.refresh(&mut v).unwrap();
        assert!(v.initialized());
    }
}

#[test]
fn rebinding_goes_dark_for_one_cycle() {
    let mut m = market();
    m.ext_keys = vec![unique()];
    let mut v = m.live_venue();
    assert!(v.initialized());

    // Same number of accounts, another key.
    m.ext_keys = vec![unique()];
    m.refresh(&mut v).unwrap();
    assert_eq!(v.ext_keys, m.ext_keys);
    assert!(v.ext_data.is_empty());
    assert!(!v.initialized());
    assert_eq!(
        v.quote(m.sell(100)),
        Err(TradingVenueError::NotInitialized(m.strategy_key))
    );

    m.refresh(&mut v).unwrap();
    assert!(v.initialized());
}

// ---- Quoting --------------------------------------------------------------

#[test]
fn quote_prices_both_sides() {
    let m = market();
    let v = m.live_venue();
    assert_eq!(
        v.quote(m.sell(100)),
        Ok(QuoteResult {
            input_mint: m.base_mint,
            output_mint: m.quote_mint,
            amount: 100,
            expected_output: 200,
            not_enough_liquidity: false,
            price: price(20, 10),
        })
    );
    // The quote leg's probe is 1000.
    assert_eq!(v.quote(m.buy(100)).unwrap().price, price(2_000, 1_000));
    assert_eq!(v.quote(m.buy(100)).unwrap().input_mint, m.quote_mint);
    assert_eq!(v.compute_quote(m.buy(100)), v.quote(m.buy(100)));
}

#[test]
fn quote_sees_the_side() {
    let mut m = market();
    m.bytecode = BytecodeBuilder::new().load_side().load_const(5).add().halt().build();
    let v = m.live_venue();
    assert_eq!(v.quote(m.sell(100)).unwrap().expected_output, 5);
    assert_eq!(v.quote(m.buy(100)).unwrap().expected_output, 6);
}

#[test]
fn spot_quote_probes_once() {
    let mut m = market();
    let spot = m.live_venue().quote(m.sell(0)).unwrap();
    assert_eq!((spot.amount, spot.expected_output), (0, 0));
    assert!(!spot.not_enough_liquidity);
    assert_eq!(spot.price, price(20, 10));

    m.inventory_quote = 19;
    let spot = m.live_venue().quote(m.sell(0)).unwrap();
    assert_eq!(spot.price, price(0, 1));
    assert!(!spot.not_enough_liquidity);
}

#[test]
fn refused_size_is_not_enough_liquidity() {
    let mut m = market();
    m.inventory_quote = 199;
    let quote = m.live_venue().quote(m.sell(100)).unwrap();
    assert!(quote.not_enough_liquidity);
    assert_eq!(quote.expected_output, 0);
    assert_eq!(quote.amount, 100);
    assert_eq!(quote.price, price(0, 1));
}

#[test]
fn marginal_price_falls_back_near_the_inventory_bound() {
    let mut m = market();
    m.inventory_quote = 205;
    // 110 in would pay 220: one step down instead.
    assert_eq!(m.live_venue().quote(m.sell(100)).unwrap().price, price(20, 10));

    // Neither step is quotable: 13 in would pay 26, 0 in pays nothing.
    m.inventory_quote = 10;
    let quote = m.live_venue().quote(m.sell(3)).unwrap();
    assert_eq!(quote.expected_output, 6);
    assert_eq!(quote.price, price(6, 3));
}

#[test]
fn flat_curve_reports_the_average_rate() {
    let mut m = market();
    m.bytecode = BytecodeBuilder::new().load_const(7).halt().build();
    let quote = m.live_venue().quote(m.sell(100)).unwrap();
    assert_eq!(quote.expected_output, 7);
    assert_eq!(quote.price, price(7, 100));
}

#[test]
fn convex_curve_reports_the_forward_chord() {
    let mut m = market();
    m.bytecode = BytecodeBuilder::new().load_size().dup().mul().halt().build();
    m.probe_base = 5;
    // (15^2 - 10^2) over 5.
    assert_eq!(m.live_venue().quote(m.sell(10)).unwrap().price, price(125, 5));
}

#[test]
fn unset_probe_steps_by_one_atom() {
    let mut m = market();
    m.probe_base = 0;
    let v = m.live_venue();
    assert_eq!(v.quote(m.sell(100)).unwrap().price, price(2, 1));
    // A zero probe pays nothing under this curve.
    assert_eq!(v.quote(m.sell(0)).unwrap().price, price(0, 1));
}

#[test]
fn quote_simulates_a_swap_routed_by_titan() {
    let mut m = market();
    m.bytecode = BytecodeBuilder::new()
        .entrypoint_is(&sdk::TITAN_ROUTER_ID)
        .load_ix_depth()
        .mul()
        .halt()
        .build();
    let quote = m.live_venue().quote(m.sell(100)).unwrap();
    assert_eq!(quote.expected_output, u64::from(ROUTED_IX_DEPTH));
}

#[test]
fn quote_sees_clock_and_decimals() {
    let mut m = market();
    m.bytecode = BytecodeBuilder::new().load_now_slot().halt().build();
    assert_eq!(m.live_venue().quote(m.sell(1)).unwrap().expected_output, 77);
    m.bytecode = BytecodeBuilder::new().load_now_unix_sec().halt().build();
    m.inventory_quote = u64::MAX / 2;
    assert_eq!(m.live_venue().quote(m.sell(1)).unwrap().expected_output, 1_700_000_000);
    m.bytecode = BytecodeBuilder::new()
        .load_base_decimals()
        .load_const(100)
        .mul()
        .load_quote_decimals()
        .add()
        .halt()
        .build();
    let mut v = m.live_venue();
    assert_eq!(v.quote(m.sell(1)).unwrap().expected_output, 906);
    v.tokens[0].decimals = 256 + 3;
    v.tokens[1].decimals = -1;
    assert_eq!(v.quote(m.sell(1)).unwrap().expected_output, 300 + 255);
}

#[test]
fn quote_reads_the_bound_external_accounts() {
    let mut m = market();
    m.ext_keys = vec![unique(), unique()];
    m.bytecode = BytecodeBuilder::new()
        .load_ext_u64(0, 0)
        .load_const(100)
        .mul()
        .load_ext_u64(1, 0)
        .add()
        .halt()
        .build();
    assert_eq!(m.live_venue().quote(m.sell(1)).unwrap().expected_output, 4_041);
}

#[test]
fn quote_turns_requests_down_in_order() {
    let m = market();
    let mut v = m.venue();
    let mut request = m.sell(100);
    request.swap_type = SwapType::ExactOut;
    request.input_mint = unique();
    assert_eq!(v.quote(request), Err(TradingVenueError::ExactOutNotSupported));
    request.swap_type = SwapType::ExactIn;
    assert_eq!(v.quote(request), Err(TradingVenueError::InvalidMint(request.input_mint)));
    let request = m.sell(100);
    assert_eq!(v.quote(request), Err(TradingVenueError::NotInitialized(m.strategy_key)));
    m.refresh(&mut v).unwrap();
    assert!(v.quote(request).is_ok());
    let tokens = v.tokens.clone();
    v.tokens = vec![tokens[1]];
    assert_eq!(v.quote(request), Err(TradingVenueError::MissingState(Leg::Base)));
    v.tokens = vec![tokens[0]];
    assert_eq!(v.quote(request), Err(TradingVenueError::MissingState(Leg::Quote)));
}

#[test]
fn requests_off_the_pair_are_invalid() {
    let m = market();
    let v = m.live_venue();
    assert_eq!(v.swap_side(&m.base_mint, &m.quote_mint), Some(0));
    assert_eq!(v.swap_side(&m.quote_mint, &m.base_mint), Some(1));
    assert_eq!(v.swap_side(&m.base_mint, &m.base_mint), None);
    assert_eq!(v.swap_side(&m.base_mint, &unique()), None);
    let mut request = m.sell(1);
    request.output_mint = m.base_mint;
    assert_eq!(v.quote(request), Err(TradingVenueError::InvalidMint(m.base_mint)));
    assert_eq!(
        v.build_swap_ix(request, unique()),
        Err(TradingVenueError::InvalidMint(m.base_mint))
    );
}

#[test]
fn answers_follow_the_simulated_outputs() {
    let request = market().sell(100);
    assert_eq!(spot_quote(&request, 8, Some(3)).price, price(3, 8));
    assert_eq!(spot_quote(&request, 8, None).price, price(0, 1));
    assert_eq!(marginal_price(100, 4, 50, Some(60), Some(10)), price(10, 4));
    assert_eq!(marginal_price(100, 4, 50, Some(50), Some(10)), price(40, 4));
    assert_eq!(marginal_price(100, 4, 50, None, Some(50)), price(50, 100));
    assert_eq!(marginal_price(100, 4, 50, Some(49), None), price(50, 100));
    let filled = sized_quote(&request, 4, Some(50), Some(60), None);
    assert_eq!((filled.expected_output, filled.price), (50, price(10, 4)));
    let refused = sized_quote(&request, 4, None, Some(60), Some(40));
    assert_eq!((refused.expected_output, refused.price), (0, price(0, 1)));
    assert!(refused.not_enough_liquidity);
}

// ---- Swapping -------------------------------------------------------------

fn metas(instruction: &quay_venue::types::Instruction) -> Vec<(Pubkey, bool, bool)> {
    instruction.accounts.iter().map(|a| (a.pubkey, a.is_signer, a.is_writable)).collect()
}

#[test]
fn swap_instruction_is_the_sdk_instruction() {
    let m = market();
    let v = m.live_venue();
    let user = unique();
    let spl = pda::SPL_TOKEN_PROGRAM_ID;
    let t22 = pda::TOKEN_2022_PROGRAM_ID;
    let ata_base = pda::associated_token_account(&solana(&user), &solana(&m.base_mint), &spl);
    let ata_quote = pda::associated_token_account(&solana(&user), &solana(&m.quote_mint), &t22);
    for (request, side) in [(m.sell(1_234), 0u8), (m.buy(1_234), 1u8)] {
        let built = v.generate_swap_instruction(request, user).unwrap();
        let expected = ix::swap(
            &solana(&m.program_id),
            &solana(&m.strategy_key),
            &solana(&v.mm_key),
            &solana(&m.quotes_key),
            &solana(&m.base_mint),
            &solana(&m.quote_mint),
            &solana(&user),
            &ata_base,
            &ata_quote,
            &spl,
            &t22,
            1_234,
            0,
            side,
        );
        assert_eq!(built.program_id, key(expected.program_id));
        assert_eq!(built.data, expected.data);
        let expected_metas: Vec<(Pubkey, bool, bool)> = expected
            .accounts
            .iter()
            .map(|a| (key(a.pubkey), a.is_signer, a.is_writable))
            .collect();
        assert_eq!(metas(&built), expected_metas);
        assert_eq!(built.accounts.len(), 14);
    }
}

#[test]
fn swap_instruction_lays_out_accounts_and_data() {
    let m = market();
    let v = m.live_venue();
    let user = unique();
    let built = v.build_swap_ix(m.buy(0x0102), user).unwrap();
    assert_eq!(
        built.data,
        vec![0x20, 0x02, 0x01, 0, 0, 0, 0, 0, 0, 0, 0, 0, 0, 0, 0, 0, 0, 1]
    );
    let keys: Vec<Pubkey> = built.accounts.iter().map(|a| a.pubkey).collect();
    assert_eq!(keys[0], v.global_config_key);
    assert_eq!(keys[1..4], [m.strategy_key, v.mm_key, m.quotes_key]);
    assert_eq!(keys[4..6], [v.vault_quote_key, v.vault_base_key]);
    assert_eq!(keys[8..11], [user, m.quote_mint, m.base_mint]);
    assert_eq!(keys[11], key(ix::INSTRUCTIONS_SYSVAR_ID));
    assert_eq!(keys[12], key(pda::SPL_TOKEN_PROGRAM_ID));
    assert_eq!(keys[13], key(pda::TOKEN_2022_PROGRAM_ID));
    for (i, meta) in built.accounts.iter().enumerate() {
        assert_eq!(meta.is_signer, i == 8);
        assert_eq!(meta.is_writable, i == 1 || i == 2 || (4..=8).contains(&i));
    }
}

#[test]
fn one_token_program_is_listed_once() {
    let m = market();
    let mut v = m.live_venue();
    v.tokens[1].program = TokenProgram::SplToken;
    let built = v.build_swap_ix(m.sell(1), unique()).unwrap();
    assert_eq!(built.accounts.len(), 13);
    assert_eq!(v.token_program_for(&m.quote_mint), Some(key(pda::SPL_TOKEN_PROGRAM_ID)));
    assert_eq!(v.token_program_for(&unique()), None);
    assert_eq!(v.token_info_for(&m.base_mint), m.base_token());
}

#[test]
fn swap_turns_requests_down_like_a_quote() {
    let m = market();
    let fresh = m.venue();
    let user = unique();
    let mut request = m.sell(5);
    assert_eq!(
        fresh.build_swap_ix(request, user),
        Err(TradingVenueError::MissingState(Leg::Base))
    );
    let mut v = m.live_venue();
    v.tokens.pop();
    assert_eq!(v.build_swap_ix(request, user), Err(TradingVenueError::MissingState(Leg::Quote)));
    request.swap_type = SwapType::ExactOut;
    assert_eq!(
        v.build_swap_ix(request, user),
        Err(TradingVenueError::ExactOutNotSupported)
    );
    assert_eq!(v.quote(request), Err(TradingVenueError::ExactOutNotSupported));
}

#[test]
fn lookup_table_keys_cover_stable_accounts_no_cache() {
    let v = all_active_venue();
    let keys = v.get_lookup_table_keys().unwrap();

    // Every stable venue account is present.
    for k in [
        v.program_id,
        v.global_config_key,
        v.strategy_key,
        v.mm_key,
        v.quotes_key,
        v.vault_base_key,
        v.vault_quote_key,
        v.base_mint,
        v.quote_mint,
    ] {
        assert!(keys.contains(&k), "ALT keys should include {k:?}");
    }
    // Token + system programs are included.
    assert!(keys.contains(&key(pda::SPL_TOKEN_PROGRAM_ID)));
    assert!(keys.contains(&key(pda::TOKEN_2022_PROGRAM_ID)));
    // Per-taker accounts are user-specific and must NOT be baked into the ALT.
    assert_eq!(keys.len(), 13, "10 venue accounts + 3 program deps");
}

#[test]
fn lookup_table_covers_every_swap_account() {
    let m = market();
    let v = m.live_venue();
    let user = unique();
    let table = v.get_lookup_table_keys().unwrap();
    for request in [m.sell(1), m.buy(1)] {
        let built = v.build_swap_ix(request, user).unwrap();
        assert!(table.contains(&built.program_id));
        for (i, meta) in built.accounts.iter().enumerate() {
            let per_user = (6..=8).contains(&i);
            assert_eq!(table.contains(&meta.pubkey), !per_user);
        }
    }
}
