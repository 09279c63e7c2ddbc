use bonk_accounts::event::{
    global_config_parser, platform_config_parser, pool_state_parser, AccountPretty, DexEvent,
    EventMetadata, EventType, DISCRIMINATOR_SIZE,
};
use bonk_accounts::global_config::{
    global_config_decode, global_config_try_decode, GlobalConfig, GLOBAL_CONFIG_SIZE,
};
use bonk_accounts::platform_config::{
    platform_config_decode, platform_config_try_decode, PlatformConfig, PlatformCurveParam, PLATFORM_CONFIG_SIZE,
    PLATFORM_CURVE_PARAM_SIZE,
};
use bonk_accounts::pool_state::{
    pool_state_decode, pool_state_try_decode, PoolState, POOL_STATE_SIZE,
};
use bonk_accounts::records::{
    AmmCreatorFeeOn, AmmFeeOn, DecodeError, BondingCurveParam, CurveParams, ConstantCurve, PoolStatus, Pubkey,
    TradeDirection, VestingSchedule,
};
use bonk_accounts::wire::{read_u16, read_u64};

fn key(seed: u8) -> Pubkey {
    let mut b = [0u8; 32];
    for (i, x) in b.iter_mut().enumerate() {
        *x = seed.wrapping_add(i as u8);
    }
    Pubkey(b)
}

fn put_u64(out: &mut Vec<u8>, x: u64) {
    out.extend_from_slice(&x.to_le_bytes());
}

fn sample_pool_state() -> PoolState {
    let mut padding = [0u8; 54];
    for (i, x) in padding.iter_mut().enumerate() {
        *x = 200u8.wrapping_add(i as u8);
    }
    PoolState {
        epoch: 0x0102030405060708,
        auth_bump: 254,
        status: 2,
        base_decimals: 6,
        quote_decimals: 9,
        migrate_type: 1,
        supply: 1_000_000_000_000_000,
        total_base_sell: 793_100_000_000_000,
        virtual_base: 1_073_025_605_596_382,
        virtual_quote: 30_000_852_951,
        real_base: 12_345,
        real_quote: 67_890,
        total_quote_fund_raising: 85_000_000_000,
        quote_protocol_fee: 111,
        platform_fee: 222,
        migrate_fee: 333,
        vesting_schedule: VestingSchedule {
            total_locked_amount: 10,
            cliff_period: 20,
            unlock_period: 30,
            start_time: 40,
            allocated_share_amount: 50,
        },
        global_config: key(1),
        platform_config: key(2),
        base_mint: key(3),
        quote_mint: key(4),
        base_vault: key(5),
        quote_vault: key(6),
        creator: key(7),
        token_program_flag: 1,
        amm_creator_fee_on: AmmCreatorFeeOn::BothToken,
        platform_vesting_share: u64::MAX,
        padding,
    }
}

fn encode_pool_state(p: &PoolState) -> Vec<u8> {
    let mut o = Vec::new();
    put_u64(&mut o, p.epoch);
    o.extend_from_slice(&[p.auth_bump, p.status, p.base_decimals, p.quote_decimals, p.migrate_type]);
    for x in [
        p.supply,
        p.total_base_sell,
        p.virtual_base,
        p.virtual_quote,
        p.real_base,
        p.real_quote,
        p.total_quote_fund_raising,
        p.quote_protocol_fee,
        p.platform_fee,
        p.migrate_fee,
    ] {
        put_u64(&mut o, x);
    }
    let v = &p.vesting_schedule;
    for x in [v.total_locked_amount, v.cliff_period, v.unlock_period, v.start_time, v.allocated_share_amount] {
        put_u64(&mut o, x);
    }
    for k in [&p.global_config, &p.platform_config, &p.base_mint, &p.quote_mint, &p.base_vault, &p.quote_vault, &p.creator] {
        o.extend_from_slice(&k.0);
    }
    o.push(p.token_program_flag);
    o.push(match p.amm_creator_fee_on {
        AmmCreatorFeeOn::QuoteToken => 0,
        AmmCreatorFeeOn::BothToken => 1,
    });
    put_u64(&mut o, p.platform_vesting_share);
    o.extend_from_slice(&p.padding);
    o
}

fn sample_global_config() -> GlobalConfig {
    let mut padding = [0u64; 16];
    for (i, x) in padding.iter_mut().enumerate() {
        *x = (i as u64) << 40 | 7;
    }
    GlobalConfig {
        epoch: 99,
        curve_type: 2,
        index: 0xBEEF,
        migrate_fee: 1,
        trade_fee_rate: 2500,
        max_share_fee_rate: 3,
        min_base_supply: 4,
        max_lock_rate: 5,
        min_base_sell_rate: 6,
        min_base_migrate_rate: 7,
        min_quote_fund_raising: 8,
        quote_mint: key(10),
        protocol_fee_owner: key(11),
        migrate_fee_owner: key(12),
        migrate_to_amm_wallet: key(13),
        migrate_to_cpswap_wallet: key(14),
        padding,
    }
}

fn encode_global_config(c: &GlobalConfig) -> Vec<u8> {
    let mut o = Vec::new();
    put_u64(&mut o, c.epoch);
    o.push(c.curve_type);
    o.extend_from_slice(&c.index.to_le_bytes());
    for x in [
        c.migrate_fee,
        c.trade_fee_rate,
        c.max_share_fee_rate,
        c.min_base_supply,
        c.max_lock_rate,
        c.min_base_sell_rate,
        c.min_base_migrate_rate,
        c.min_quote_fund_raising,
    ] {
        put_u64(&mut o, x);
    }
    for k in [&c.quote_mint, &c.protocol_fee_owner, &c.migrate_fee_owner, &c.migrate_to_amm_wallet, &c.migrate_to_cpswap_wallet] {
        o.extend_from_slice(&k.0);
    }
    for w in c.padding {
        put_u64(&mut o, w);
    }
    o
}

fn sample_curve_param(seed: u64) -> PlatformCurveParam {
    let mut padding = [0u64; 50];
    for (i, x) in padding.iter_mut().enumerate() {
        *x = seed * 1000 + i as u64;
    }
    PlatformCurveParam {
        epoch: seed,
        index: seed as u8,
        global_config: key(seed as u8 + 50),
        bonding_curve_param: BondingCurveParam {
            migrate_type: 1,
            migrate_cpmm_fee_on: 0,
            supply: seed + 1,
            total_base_sell: seed + 2,
            total_quote_fund_raising: seed + 3,
            total_locked_amount: seed + 4,
            cliff_period: seed + 5,
            unlock_period: seed + 6,
        },
        padding,
    }
}

fn encode_curve_param(c: &PlatformCurveParam) -> Vec<u8> {
    let mut o = Vec::new();
    put_u64(&mut o, c.epoch);
    o.push(c.index);
    o.extend_from_slice(&c.global_config.0);
    let b = &c.bonding_curve_param;
    o.push(b.migrate_type);
    o.push(b.migrate_cpmm_fee_on);
    for x in [b.supply, b.total_base_sell, b.total_quote_fund_raising, b.total_locked_amount, b.cliff_period, b.unlock_period] {
        put_u64(&mut o, x);
    }
    for w in c.padding {
        put_u64(&mut o, w);
    }
    o
}

fn sample_platform_config(entries: u64) -> PlatformConfig {
    let mut name = [0u8; 64];
    name[..5].copy_from_slice(b"bonk!");
    let mut web = [0u8; 256];
    web[..8].copy_from_slice(b"https://");
    let mut img = [0u8; 256];
    img[255] = 0xFF;
    let mut padding = [0u8; 108];
    padding[0] = 1;
    padding[107] = 2;
    PlatformConfig {
        epoch: 5,
        platform_fee_wallet: key(20),
        platform_nft_wallet: key(21),
        platform_scale: 100,
        creator_scale: 200,
        burn_scale: 300,
        fee_rate: 400,
        name,
        web,
        img,
        cpswap_config: key(22),
        creator_fee_rate: 500,
        transfer_fee_extension_auth: key(23),
        platform_vesting_wallet: key(24),
        platform_vesting_scale: 600,
        platform_cp_creator: key(25),
        padding,
        curve_params: (1..=entries).map(sample_curve_param).collect(),
    }
}

fn encode_platform_config(c: &PlatformConfig) -> Vec<u8> {
    let mut o = Vec::new();
    put_u64(&mut o, c.epoch);
    o.extend_from_slice(&c.platform_fee_wallet.0);
    o.extend_from_slice(&c.platform_nft_wallet.0);
    for x in [c.platform_scale, c.creator_scale, c.burn_scale, c.fee_rate] {
        put_u64(&mut o, x);
    }
    o.extend_from_slice(&c.name);
    o.extend_from_slice(&c.web);
    o.extend_from_slice(&c.img);
    o.extend_from_slice(&c.cpswap_config.0);
    put_u64(&mut o, c.creator_fee_rate);
    o.extend_from_slice(&c.transfer_fee_extension_auth.0);
    o.extend_from_slice(&c.platform_vesting_wallet.0);
    put_u64(&mut o, c.platform_vesting_scale);
    o.extend_from_slice(&c.platform_cp_creator.0);
    o.extend_from_slice(&c.padding);
    for e in &c.curve_params {
        o.extend(encode_curve_param(e));
    }
    o
}

fn account(data: Vec<u8>) -> AccountPretty {
    AccountPretty {
        pubkey: key(90),
        executable: false,
        lamports: 2_039_280,
        owner: key(91),
        rent_epoch: u64::MAX,
        data,
    }
}

fn metadata() -> EventMetadata {
    EventMetadata { slot: 123_456, block_time: 1_700_000_000, event_type: EventType::Unknown }
}

fn with_discriminator(body: &[u8]) -> Vec<u8> {
    let mut d = vec![0xAA, 0xBB, 0xCC, 0xDD, 0x01, 0x02, 0x03, 0x04];
    d.extend_from_slice(body);
    d
}

#[test]
fn record_sizes_match_layouts() {
    assert_eq!(POOL_STATE_SIZE, 421);
    assert_eq!(GLOBAL_CONFIG_SIZE, 363);
    assert_eq!(PLATFORM_CONFIG_SIZE, 932);
    assert_eq!(PLATFORM_CURVE_PARAM_SIZE, 491);
    assert_eq!(encode_pool_state(&sample_pool_state()).len(), POOL_STATE_SIZE);
    assert_eq!(encode_global_config(&sample_global_config()).len(), GLOBAL_CONFIG_SIZE);
    assert_eq!(encode_platform_config(&sample_platform_config(0)).len(), PLATFORM_CONFIG_SIZE);
    assert_eq!(encode_curve_param(&sample_curve_param(1)).len(), PLATFORM_CURVE_PARAM_SIZE);
}

#[test]
fn scalars_are_little_endian() {
    let b = [1u8, 2, 3, 4, 5, 6, 7, 8, 9];
    assert_eq!(read_u64(&b, 0), 0x0807060504030201);
    assert_eq!(read_u64(&b, 1), 0x0908070605040302);
    assert_eq!(read_u16(&b, 0), 0x0201);
}

#[test]
fn pool_state_round_trip() {
    let p = sample_pool_state();
    assert_eq!(pool_state_decode(&encode_pool_state(&p)), Some(p));
}

#[test]
fn pool_state_ignores_trailing_bytes() {
    let p = sample_pool_state();
    let mut bytes = encode_pool_state(&p);
    bytes.extend_from_slice(&[0xEE; 17]);
    assert_eq!(pool_state_decode(&bytes), Some(p));
}

#[test]
fn pool_state_too_short_fails() {
    let bytes = encode_pool_state(&sample_pool_state());
    assert_eq!(pool_state_decode(&bytes[..POOL_STATE_SIZE - 1]), None);
    assert_eq!(pool_state_decode(&[]), None);
    for len in [0usize, 1, 8, 100, 420] {
        assert_eq!(pool_state_decode(&vec![0u8; len]), None);
    }
}

#[test]
fn pool_state_unknown_creator_fee_tag_fails() {
    let mut bytes = encode_pool_state(&sample_pool_state());
    for tag in 2u8..=255 {
        bytes[358] = tag;
        assert_eq!(pool_state_decode(&bytes), None);
    }
    bytes[358] = 0;
    assert_eq!(pool_state_decode(&bytes).unwrap().amm_creator_fee_on, AmmCreatorFeeOn::QuoteToken);
    bytes[358] = 1;
    assert_eq!(pool_state_decode(&bytes).unwrap().amm_creator_fee_on, AmmCreatorFeeOn::BothToken);
}

#[test]
fn pool_state_zero_bytes_decode_to_default() {
    assert_eq!(pool_state_decode(&[0u8; POOL_STATE_SIZE]), Some(PoolState::default()));
    assert_eq!(encode_pool_state(&PoolState::default()), vec![0u8; POOL_STATE_SIZE]);
}

#[test]
fn pool_state_decode_is_repeatable() {
    let bytes = encode_pool_state(&sample_pool_state());
    let a = pool_state_decode(&bytes);
    let b = pool_state_decode(&bytes);
    assert!(a.is_some());
    assert_eq!(a, b);
}

#[test]
fn global_config_round_trip() {
    let c = sample_global_config();
    assert_eq!(global_config_decode(&encode_global_config(&c)), Some(c));
}

#[test]
fn global_config_length_gate() {
    let c = sample_global_config();
    let mut bytes = encode_global_config(&c);
    assert_eq!(global_config_decode(&bytes[..GLOBAL_CONFIG_SIZE - 1]), None);
    bytes.push(0x55);
    assert_eq!(global_config_decode(&bytes), Some(c));
    assert_eq!(global_config_decode(&[0u8; GLOBAL_CONFIG_SIZE]), Some(GlobalConfig::default()));
}

#[test]
fn global_config_decode_is_repeatable() {
    let bytes = encode_global_config(&sample_global_config());
    assert_eq!(global_config_decode(&bytes), global_config_decode(&bytes));
}

#[test]
fn platform_config_round_trip() {
    for n in 0..4 {
        let c = sample_platform_config(n);
        assert_eq!(platform_config_decode(&encode_platform_config(&c)), Some(c));
    }
}

#[test]
fn platform_config_two_entries() {
    let bytes = encode_platform_config(&sample_platform_config(2));
    assert_eq!(bytes.len(), PLATFORM_CONFIG_SIZE + 2 * PLATFORM_CURVE_PARAM_SIZE);
    let c = platform_config_decode(&bytes).unwrap();
    assert_eq!(c.curve_params.len(), 2);
    assert_eq!(c.curve_params[0], sample_curve_param(1));
    assert_eq!(c.curve_params[1], sample_curve_param(2));
}

#[test]
fn platform_config_partial_entry_fails() {
    let mut bytes = encode_platform_config(&sample_platform_config(1));
    bytes.extend_from_slice(&[1, 2, 3]);
    assert_eq!(platform_config_decode(&bytes), None);
    let mut bytes = encode_platform_config(&sample_platform_config(0));
    bytes.extend_from_slice(&[0u8; PLATFORM_CURVE_PARAM_SIZE - 1]);
    assert_eq!(platform_config_decode(&bytes), None);
}

#[test]
fn platform_config_prefix_only_has_no_entries() {
    let c = platform_config_decode(&encode_platform_config(&sample_platform_config(0))).unwrap();
    assert!(c.curve_params.is_empty());
    assert_eq!(platform_config_decode(&[0u8; PLATFORM_CONFIG_SIZE]), Some(PlatformConfig::default()));
}

#[test]
fn platform_config_too_short_fails() {
    let bytes = encode_platform_config(&sample_platform_config(0));
    assert_eq!(platform_config_decode(&bytes[..PLATFORM_CONFIG_SIZE - 1]), None);
    assert_eq!(platform_config_decode(&[]), None);
}

#[test]
fn platform_config_decode_is_repeatable() {
    let bytes = encode_platform_config(&sample_platform_config(3));
    assert_eq!(platform_config_decode(&bytes), platform_config_decode(&bytes));
}

#[test]
fn tags_decode_to_their_variants() {
    assert_eq!(TradeDirection::from_tag(0), Some(TradeDirection::Buy));
    assert_eq!(TradeDirection::from_tag(1), Some(TradeDirection::Sell));
    assert_eq!(PoolStatus::from_tag(0), Some(PoolStatus::Fund));
    assert_eq!(PoolStatus::from_tag(1), Some(PoolStatus::Migrate));
    assert_eq!(PoolStatus::from_tag(2), Some(PoolStatus::Trade));
    assert_eq!(AmmFeeOn::from_tag(0), Some(AmmFeeOn::QuoteToken));
    assert_eq!(AmmFeeOn::from_tag(1), Some(AmmFeeOn::BothToken));
    assert_eq!(AmmCreatorFeeOn::from_tag(0), Some(AmmCreatorFeeOn::QuoteToken));
    assert_eq!(AmmCreatorFeeOn::from_tag(1), Some(AmmCreatorFeeOn::BothToken));
}

#[test]
fn undefined_tags_fail() {
    for t in 2u8..=255 {
        assert_eq!(TradeDirection::from_tag(t), None);
        assert_eq!(AmmFeeOn::from_tag(t), None);
        assert_eq!(AmmCreatorFeeOn::from_tag(t), None);
    }
    for t in 3u8..=255 {
        assert_eq!(PoolStatus::from_tag(t), None);
    }
}

#[test]
fn defaults() {
    assert_eq!(TradeDirection::default(), TradeDirection::Buy);
    assert_eq!(PoolStatus::default(), PoolStatus::Fund);
    assert_eq!(AmmFeeOn::default(), AmmFeeOn::QuoteToken);
    assert_eq!(AmmCreatorFeeOn::default(), AmmCreatorFeeOn::QuoteToken);
    assert_eq!(
        CurveParams::default(),
        CurveParams::Constant { data: ConstantCurve { supply: 0, total_base_sell: 0, total_quote_fund_raising: 0, migrate_type: 0 } }
    );
    assert_eq!(Pubkey::default(), Pubkey([0u8; 32]));
    let p = PlatformCurveParam::default();
    assert_eq!(p.padding, [0u64; 50]);
    assert_eq!(p.bonding_curve_param, BondingCurveParam::default());
}

#[test]
fn pool_state_parser_exact_window() {
    let p = sample_pool_state();
    let data = with_discriminator(&encode_pool_state(&p));
    assert_eq!(data.len(), POOL_STATE_SIZE + DISCRIMINATOR_SIZE);
    let acc = account(data);
    match pool_state_parser(&acc, metadata()) {
        Some(DexEvent::BonkPoolStateAccountEvent(e)) => {
            assert_eq!(e.metadata.event_type, EventType::AccountBonkPoolState);
            assert_eq!(e.metadata.slot, 123_456);
            assert_eq!(e.metadata.block_time, 1_700_000_000);
            assert_eq!(e.pubkey, acc.pubkey);
            assert_eq!(e.owner, acc.owner);
            assert_eq!(e.lamports, acc.lamports);
            assert_eq!(e.rent_epoch, acc.rent_epoch);
            assert_eq!(e.executable, acc.executable);
            assert_eq!(e.pool_state, p);
        }
        other => panic!("unexpected {:?}", other),
    }
}

#[test]
fn pool_state_parser_one_byte_short() {
    let data = with_discriminator(&encode_pool_state(&sample_pool_state()));
    let acc = account(data[..POOL_STATE_SIZE + DISCRIMINATOR_SIZE - 1].to_vec());
    assert_eq!(pool_state_parser(&acc, metadata()), None);
}

#[test]
fn pool_state_parser_bad_tag() {
    let mut data = with_discriminator(&encode_pool_state(&sample_pool_state()));
    data[DISCRIMINATOR_SIZE + 358] = 7;
    assert_eq!(pool_state_parser(&account(data), metadata()), None);
}

#[test]
fn global_config_parser_window() {
    let c = sample_global_config();
    let mut data = with_discriminator(&encode_global_config(&c));
    let acc = account(data.clone());
    match global_config_parser(&acc, metadata()) {
        Some(DexEvent::BonkGlobalConfigAccountEvent(e)) => {
            assert_eq!(e.metadata.event_type, EventType::AccountBonkGlobalConfig);
            assert_eq!(e.pubkey, acc.pubkey);
            assert_eq!(e.global_config, c);
        }
        other => panic!("unexpected {:?}", other),
    }
    data.pop();
    assert_eq!(global_config_parser(&account(data), metadata()), None);
}

#[test]
fn platform_config_parser_reads_prefix_window() {
    let with_entries = sample_platform_config(2);
    let data = with_discriminator(&encode_platform_config(&with_entries));
    let acc = account(data.clone());
    match platform_config_parser(&acc, metadata()) {
        Some(DexEvent::BonkPlatformConfigAccountEvent(e)) => {
            assert_eq!(e.metadata.event_type, EventType::AccountBonkPlatformConfig);
            assert_eq!(e.rent_epoch, acc.rent_epoch);
            assert_eq!(e.platform_config, sample_platform_config(0));
        }
        other => panic!("unexpected {:?}", other),
    }
    let short = account(data[..PLATFORM_CONFIG_SIZE + DISCRIMINATOR_SIZE - 1].to_vec());
    assert_eq!(platform_config_parser(&short, metadata()), None);
    let exact = account(data[..PLATFORM_CONFIG_SIZE + DISCRIMINATOR_SIZE].to_vec());
    assert!(platform_config_parser(&exact, metadata()).is_some());
}

#[test]
fn error_kinds() {
    let mut pool = encode_pool_state(&sample_pool_state());
    assert_eq!(pool_state_try_decode(&pool[..10]), Err(DecodeError::TooShort));
    pool[358] = 9;
    assert_eq!(pool_state_try_decode(&pool), Err(DecodeError::UnknownTag));
    pool[358] = 1;
    assert_eq!(pool_state_try_decode(&pool), Ok(sample_pool_state()));

    let global = encode_global_config(&sample_global_config());
    assert_eq!(global_config_try_decode(&global[..GLOBAL_CONFIG_SIZE - 1]), Err(DecodeError::TooShort));
    assert_eq!(global_config_try_decode(&global), Ok(sample_global_config()));

    let mut platform = encode_platform_config(&sample_platform_config(1));
    assert_eq!(platform_config_try_decode(&platform[..PLATFORM_CONFIG_SIZE - 1]), Err(DecodeError::TooShort));
    assert_eq!(platform_config_try_decode(&platform), Ok(sample_platform_config(1)));
    platform.push(0);
    assert_eq!(platform_config_try_decode(&platform), Err(DecodeError::MisalignedTail));
}
