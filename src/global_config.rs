//! The global configuration record: protocol-wide parameters of one curve type.
use vstd::prelude::*;
use crate::records::{DecodeError, Pubkey};
use crate::wire::{all_zero, all_zero_words, lemma_prefix_subranges, 
    lemma_u16_round_trip, lemma_u64_at, lemma_u64s_at, lemma_u64s_bytes_len, read_u16, read_u64,
    read_u64s, u16_bytes, u16_le, u64_at, u64_bytes, u64s_at, u64s_bytes,
};

verus! {

/// Encoded size of a global configuration: the epoch, the curve type, the
/// index, eight words, five addresses and sixteen reserved words.
pub const GLOBAL_CONFIG_SIZE: usize = 8 + 1 + 2 + 8 * 8 + 32 * 5 + 8 * 16;

/// Protocol-wide parameters of one curve type.
#[derive(Clone, Copy, Debug, PartialEq, Eq)]
pub struct GlobalConfig {
    pub epoch: u64,
    pub curve_type: u8,
    pub index: u16,
    pub migrate_fee: u64,
    pub trade_fee_rate: u64,
    pub max_share_fee_rate: u64,
    pub min_base_supply: u64,
    pub max_lock_rate: u64,
    pub min_base_sell_rate: u64,
    pub min_base_migrate_rate: u64,
    pub min_quote_fund_raising: u64,
    pub quote_mint: Pubkey,
    pub protocol_fee_owner: Pubkey,
    pub migrate_fee_owner: Pubkey,
    pub migrate_to_amm_wallet: Pubkey,
    pub migrate_to_cpswap_wallet: Pubkey,
    pub padding: [u64; 16],
}

impl GlobalConfig {
    /// The fields in declaration order, integers little-endian.
    pub open spec fn encoded(self) -> Seq<u8> {
        u64_bytes(self.epoch) + seq![self.curve_type] + u16_bytes(self.index) + u64_bytes(
            self.migrate_fee,
        ) + u64_bytes(self.trade_fee_rate) + u64_bytes(self.max_share_fee_rate) + u64_bytes(
            self.min_base_supply,
        ) + u64_bytes(self.max_lock_rate) + u64_bytes(self.min_base_sell_rate) + u64_bytes(
            self.min_base_migrate_rate,
        ) + u64_bytes(self.min_quote_fund_raising) + self.quote_mint.0@
            + self.protocol_fee_owner.0@ + self.migrate_fee_owner.0@
            + self.migrate_to_amm_wallet.0@ + self.migrate_to_cpswap_wallet.0@ + u64s_bytes(
            self.padding@,
        )
    }

    /// `self` is the global configuration encoded at the start of `s`.
    pub open spec fn read_from(self, s: Seq<u8>) -> bool {
        &&& self.epoch == u64_at(s, 0)
        &&& self.curve_type == s[8]
        &&& self.index == u16_le(s.subrange(9, 11))
        &&& self.migrate_fee == u64_at(s, 11)
        &&& self.trade_fee_rate == u64_at(s, 19)
        &&& self.max_share_fee_rate == u64_at(s, 27)
        &&& self.min_base_supply == u64_at(s, 35)
        &&& self.max_lock_rate == u64_at(s, 43)
        &&& self.min_base_sell_rate == u64_at(s, 51)
        &&& self.min_base_migrate_rate == u64_at(s, 59)
        &&& self.min_quote_fund_raising == u64_at(s, 67)
        &&& self.quote_mint.read_from(s, 75)
        &&& self.protocol_fee_owner.read_from(s, 107)
        &&& self.migrate_fee_owner.read_from(s, 139)
        &&& self.migrate_to_amm_wallet.read_from(s, 171)
        &&& self.migrate_to_cpswap_wallet.read_from(s, 203)
        &&& self.padding@ == u64s_at(s, 235, 16)
    }
}

impl GlobalConfig {
    /// Every integer is zero and every address, byte and word region all
    /// zeros.
    pub open spec fn is_zeroed(self) -> bool {
        &&& self.epoch == 0
        &&& self.curve_type == 0
        &&& self.index == 0
        &&& self.migrate_fee == 0
        &&& self.trade_fee_rate == 0
        &&& self.max_share_fee_rate == 0
        &&& self.min_base_supply == 0
        &&& self.max_lock_rate == 0
        &&& self.min_base_sell_rate == 0
        &&& self.min_base_migrate_rate == 0
        &&& self.min_quote_fund_raising == 0
        &&& all_zero(self.quote_mint.0@)
        &&& all_zero(self.protocol_fee_owner.0@)
        &&& all_zero(self.migrate_fee_owner.0@)
        &&& all_zero(self.migrate_to_amm_wallet.0@)
        &&& all_zero(self.migrate_to_cpswap_wallet.0@)
        &&& all_zero_words(self.padding@)
    }
}

impl Default for GlobalConfig {
    fn default() -> (r: GlobalConfig)
        ensures
            r.is_zeroed(),
    {
        GlobalConfig {
            epoch: 0,
            curve_type: 0,
            index: 0,
            migrate_fee: 0,
            trade_fee_rate: 0,
            max_share_fee_rate: 0,
            min_base_supply: 0,
            max_lock_rate: 0,
            min_base_sell_rate: 0,
            min_base_migrate_rate: 0,
            min_quote_fund_raising: 0,
            quote_mint: Pubkey::default(),
            protocol_fee_owner: Pubkey::default(),
            migrate_fee_owner: Pubkey::default(),
            migrate_to_amm_wallet: Pubkey::default(),
            migrate_to_cpswap_wallet: Pubkey::default(),
            padding: [0u64; 16],
        }
    }
}

/// Decodes the global configuration at the start of `data`, saying why when
/// it cannot; bytes after the record are ignored. Every byte pattern of the
/// right length is a configuration.
pub fn global_config_try_decode(data: &[u8]) -> (r: Result<GlobalConfig, DecodeError>)
    ensures
        r is Ok <==> data@.len() >= GLOBAL_CONFIG_SIZE,
        r matches Ok(c) ==> c.read_from(data@),
        r matches Err(e) ==> e == DecodeError::TooShort,
{
    if data.len() < GLOBAL_CONFIG_SIZE {
        return Err(DecodeError::TooShort);
    }
    Ok(
        GlobalConfig {
            epoch: read_u64(data, 0),
            curve_type: data[8],
            index: read_u16(data, 9),
            migrate_fee: read_u64(data, 11),
            trade_fee_rate: read_u64(data, 19),
            max_share_fee_rate: read_u64(data, 27),
            min_base_supply: read_u64(data, 35),
            max_lock_rate: read_u64(data, 43),
            min_base_sell_rate: read_u64(data, 51),
            min_base_migrate_rate: read_u64(data, 59),
            min_quote_fund_raising: read_u64(data, 67),
            quote_mint: Pubkey::read(data, 75),
            protocol_fee_owner: Pubkey::read(data, 107),
            migrate_fee_owner: Pubkey::read(data, 139),
            migrate_to_amm_wallet: Pubkey::read(data, 171),
            migrate_to_cpswap_wallet: Pubkey::read(data, 203),
            padding: read_u64s::<16>(data, 235),
        },
    )
}

/// Decodes the global configuration at the start of `data`; bytes after it
/// are ignored.
pub fn global_config_decode(data: &[u8]) -> (r: Option<GlobalConfig>)
    ensures
        r is Some <==> data@.len() >= GLOBAL_CONFIG_SIZE,
        r matches Some(c) ==> c.read_from(data@),
{
    match global_config_try_decode(data) {
        Ok(c) => Some(c),
        Err(_) => None,
    }
}

/// Decoding an encoded global configuration, whatever bytes follow it, reads
/// back every field, the reserved words included.
#[verifier::rlimit(60)]
pub proof fn lemma_global_config_round_trip(p: GlobalConfig, rest: Seq<u8>)
    ensures
        (p.encoded() + rest).len() >= GLOBAL_CONFIG_SIZE,
        p.read_from(p.encoded() + rest),
{
    let e = p.encoded();
    let s = e + rest;
    lemma_u64s_bytes_len(p.padding@);
    assert(e.len() == GLOBAL_CONFIG_SIZE);
    assert(s[8] == e[8]);
    assert(s.subrange(9, 11) =~= u16_bytes(p.index));
    lemma_u16_round_trip(p.index);
    assert(s.subrange(0, 8) =~= u64_bytes(p.epoch));
    lemma_u64_at(s, 0, p.epoch);
    assert(s.subrange(11, 19) =~= u64_bytes(p.migrate_fee));
    lemma_u64_at(s, 11, p.migrate_fee);
    assert(s.subrange(19, 27) =~= u64_bytes(p.trade_fee_rate));
    lemma_u64_at(s, 19, p.trade_fee_rate);
    assert(s.subrange(27, 35) =~= u64_bytes(p.max_share_fee_rate));
    lemma_u64_at(s, 27, p.max_share_fee_rate);
    assert(s.subrange(35, 43) =~= u64_bytes(p.min_base_supply));
    lemma_u64_at(s, 35, p.min_base_supply);
    assert(s.subrange(43, 51) =~= u64_bytes(p.max_lock_rate));
    lemma_u64_at(s, 43, p.max_lock_rate);
    assert(s.subrange(51, 59) =~= u64_bytes(p.min_base_sell_rate));
    lemma_u64_at(s, 51, p.min_base_sell_rate);
    assert(s.subrange(59, 67) =~= u64_bytes(p.min_base_migrate_rate));
    lemma_u64_at(s, 59, p.min_base_migrate_rate);
    assert(s.subrange(67, 75) =~= u64_bytes(p.min_quote_fund_raising));
    lemma_u64_at(s, 67, p.min_quote_fund_raising);
    assert(s.subrange(75, 107) =~= p.quote_mint.0@);
    assert(s.subrange(107, 139) =~= p.protocol_fee_owner.0@);
    assert(s.subrange(139, 171) =~= p.migrate_fee_owner.0@);
    assert(s.subrange(171, 203) =~= p.migrate_to_amm_wallet.0@);
    assert(s.subrange(203, 235) =~= p.migrate_to_cpswap_wallet.0@);
    assert(s.subrange(235, 363) =~= u64s_bytes(p.padding@));
    lemma_u64s_at(s, 235, p.padding@);
}

/// A buffer determines the global configuration decoded from it: two
/// decodes of the same bytes agree in every field.
pub proof fn lemma_global_config_read_unique(p: GlobalConfig, q: GlobalConfig, s: Seq<u8>)
    requires
        p.read_from(s),
        q.read_from(s),
    ensures
        p == q,
{
    p.quote_mint.lemma_read_unique(q.quote_mint, s, 75);
    p.protocol_fee_owner.lemma_read_unique(q.protocol_fee_owner, s, 107);
    p.migrate_fee_owner.lemma_read_unique(q.migrate_fee_owner, s, 139);
    p.migrate_to_amm_wallet.lemma_read_unique(q.migrate_to_amm_wallet, s, 171);
    p.migrate_to_cpswap_wallet.lemma_read_unique(q.migrate_to_cpswap_wallet, s, 203);
    assert(p.padding =~= q.padding);
}

/// Decoding a global configuration reads only the first `GLOBAL_CONFIG_SIZE` bytes: whatever
/// follows them changes neither whether decoding succeeds nor what it yields.
pub proof fn lemma_global_config_reads_prefix_only(a: Seq<u8>)
    requires
        a.len() >= GLOBAL_CONFIG_SIZE,
    ensures
        forall|p: GlobalConfig| p.read_from(a) == #[trigger] p.read_from(a.subrange(0, GLOBAL_CONFIG_SIZE as int)),
{
    let t = a.subrange(0, GLOBAL_CONFIG_SIZE as int);
    lemma_prefix_subranges(a, GLOBAL_CONFIG_SIZE as int);
    assert(u64s_at(a, 235, 16) =~= u64s_at(t, 235, 16));
    assert forall|p: GlobalConfig| p.read_from(a) == #[trigger] p.read_from(t) by {}
}

/// Whatever is decoded from an encoded global configuration, whatever bytes follow it, equals it in every
/// field, reserved regions included.
pub proof fn lemma_global_config_decodes_to_encoded(p: GlobalConfig, rest: Seq<u8>, q: GlobalConfig)
    requires
        q.read_from(p.encoded() + rest),
    ensures
        q == p,
{
    lemma_global_config_round_trip(p, rest);
    lemma_global_config_read_unique(q, p, p.encoded() + rest);
}

} // verus!
