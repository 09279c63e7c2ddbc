//! The pool state record: a bonding-curve pool's reserves, fees, vesting
//! schedule and addresses.
use vstd::prelude::*;
use crate::records::{
    amm_creator_fee_on_of, AmmCreatorFeeOn, DecodeError, Pubkey, VestingSchedule, VESTING_SCHEDULE_SIZE,
};
use crate::wire::{all_zero, lemma_prefix_subranges, lemma_u64_at, read_bytes, read_u64, u64_at, u64_bytes};

verus! {

/// Encoded size of a pool state: the epoch, five single bytes, ten words,
/// the vesting schedule, seven addresses, two single bytes, a word and the
/// reserved tail.
pub const POOL_STATE_SIZE: usize = 8 + 1 * 5 + 8 * 10 + VESTING_SCHEDULE_SIZE + 32 * 7 + 1 + 1 + 8
    + 54;

/// Offset of the creator fee side's tag within an encoded pool state.
pub const POOL_STATE_CREATOR_FEE_TAG: usize = 358;

/// A bonding-curve pool's state.
#[derive(Clone, Copy, Debug, PartialEq, Eq)]
pub struct PoolState {
    pub epoch: u64,
    pub auth_bump: u8,
    pub status: u8,
    pub base_decimals: u8,
    pub quote_decimals: u8,
    pub migrate_type: u8,
    pub supply: u64,
    pub total_base_sell: u64,
    pub virtual_base: u64,
    pub virtual_quote: u64,
    pub real_base: u64,
    pub real_quote: u64,
    pub total_quote_fund_raising: u64,
    pub quote_protocol_fee: u64,
    pub platform_fee: u64,
    pub migrate_fee: u64,
    pub vesting_schedule: VestingSchedule,
    pub global_config: Pubkey,
    pub platform_config: Pubkey,
    pub base_mint: Pubkey,
    pub quote_mint: Pubkey,
    pub base_vault: Pubkey,
    pub quote_vault: Pubkey,
    pub creator: Pubkey,
    pub token_program_flag: u8,
    pub amm_creator_fee_on: AmmCreatorFeeOn,
    pub platform_vesting_share: u64,
    pub padding: [u8; 54],
}

impl PoolState {
    /// The fields in declaration order: integers little-endian, arrays as they
    /// stand, the creator fee side as its one-byte tag.
    pub open spec fn encoded(self) -> Seq<u8> {
        u64_bytes(self.epoch) + seq![
            self.auth_bump,
            self.status,
            self.base_decimals,
            self.quote_decimals,
            self.migrate_type,
        ] + u64_bytes(self.supply) + u64_bytes(self.total_base_sell) + u64_bytes(
            self.virtual_base,
        ) + u64_bytes(self.virtual_quote) + u64_bytes(self.real_base) + u64_bytes(self.real_quote)
            + u64_bytes(self.total_quote_fund_raising) + u64_bytes(self.quote_protocol_fee)
            + u64_bytes(self.platform_fee) + u64_bytes(self.migrate_fee)
            + self.vesting_schedule.encoded() + self.global_config.0@ + self.platform_config.0@
            + self.base_mint.0@ + self.quote_mint.0@ + self.base_vault.0@ + self.quote_vault.0@
            + self.creator.0@ + seq![self.token_program_flag, self.amm_creator_fee_on.spec_tag()]
            + u64_bytes(self.platform_vesting_share) + self.padding@
    }

    /// `self` is the pool state encoded at the start of `s`.
    pub open spec fn read_from(self, s: Seq<u8>) -> bool {
        &&& self.epoch == u64_at(s, 0)
        &&& self.auth_bump == s[8]
        &&& self.status == s[9]
        &&& self.base_decimals == s[10]
        &&& self.quote_decimals == s[11]
        &&& self.migrate_type == s[12]
        &&& self.supply == u64_at(s, 13)
        &&& self.total_base_sell == u64_at(s, 21)
        &&& self.virtual_base == u64_at(s, 29)
        &&& self.virtual_quote == u64_at(s, 37)
        &&& self.real_base == u64_at(s, 45)
        &&& self.real_quote == u64_at(s, 53)
        &&& self.total_quote_fund_raising == u64_at(s, 61)
        &&& self.quote_protocol_fee == u64_at(s, 69)
        &&& self.platform_fee == u64_at(s, 77)
        &&& self.migrate_fee == u64_at(s, 85)
        &&& self.vesting_schedule.read_from(s, 93)
        &&& self.global_config.read_from(s, 133)
        &&& self.platform_config.read_from(s, 165)
        &&& self.base_mint.read_from(s, 197)
        &&& self.quote_mint.read_from(s, 229)
        &&& self.base_vault.read_from(s, 261)
        &&& self.quote_vault.read_from(s, 293)
        &&& self.creator.read_from(s, 325)
        &&& self.token_program_flag == s[357]
        &&& amm_creator_fee_on_of(s[358]) == Some(self.amm_creator_fee_on)
        &&& self.platform_vesting_share == u64_at(s, 359)
        &&& self.padding@ == s.subrange(367, 421)
    }
}

impl PoolState {
    /// Every integer is zero and every address, byte and word region all
    /// zeros.
    pub open spec fn is_zeroed(self) -> bool {
        &&& self.epoch == 0
        &&& self.auth_bump == 0
        &&& self.status == 0
        &&& self.base_decimals == 0
        &&& self.quote_decimals == 0
        &&& self.migrate_type == 0
        &&& self.supply == 0
        &&& self.total_base_sell == 0
        &&& self.virtual_base == 0
        &&& self.virtual_quote == 0
        &&& self.real_base == 0
        &&& self.real_quote == 0
        &&& self.total_quote_fund_raising == 0
        &&& self.quote_protocol_fee == 0
        &&& self.platform_fee == 0
        &&& self.migrate_fee == 0
        &&& self.vesting_schedule.is_zeroed()
        &&& all_zero(self.global_config.0@)
        &&& all_zero(self.platform_config.0@)
        &&& all_zero(self.base_mint.0@)
        &&& all_zero(self.quote_mint.0@)
        &&& all_zero(self.base_vault.0@)
        &&& all_zero(self.quote_vault.0@)
        &&& all_zero(self.creator.0@)
        &&& self.token_program_flag == 0
        &&& self.amm_creator_fee_on == AmmCreatorFeeOn::QuoteToken
        &&& self.platform_vesting_share == 0
        &&& all_zero(self.padding@)
    }
}

impl Default for PoolState {
    fn default() -> (r: PoolState)
        ensures
            r.is_zeroed(),
    {
        PoolState {
            epoch: 0,
            auth_bump: 0,
            status: 0,
            base_decimals: 0,
            quote_decimals: 0,
            migrate_type: 0,
            supply: 0,
            total_base_sell: 0,
            virtual_base: 0,
            virtual_quote: 0,
            real_base: 0,
            real_quote: 0,
            total_quote_fund_raising: 0,
            quote_protocol_fee: 0,
            platform_fee: 0,
            migrate_fee: 0,
            vesting_schedule: VestingSchedule::default(),
            global_config: Pubkey::default(),
            platform_config: Pubkey::default(),
            base_mint: Pubkey::default(),
            quote_mint: Pubkey::default(),
            base_vault: Pubkey::default(),
            quote_vault: Pubkey::default(),
            creator: Pubkey::default(),
            token_program_flag: 0,
            amm_creator_fee_on: AmmCreatorFeeOn::QuoteToken,
            platform_vesting_share: 0,
            padding: [0u8; 54],
        }
    }
}

/// `s` starts with an encoded pool state: it is long enough and the creator
/// fee side's tag is a defined one.
pub open spec fn pool_state_decodable(s: Seq<u8>) -> bool {
    &&& s.len() >= POOL_STATE_SIZE
    &&& amm_creator_fee_on_of(s[POOL_STATE_CREATOR_FEE_TAG as int]) is Some
}

/// Decodes the pool state at the start of `data`, saying why when it cannot;
/// bytes after the record are ignored.
pub fn pool_state_try_decode(data: &[u8]) -> (r: Result<PoolState, DecodeError>)
    ensures
        r is Ok <==> pool_state_decodable(data@),
        r matches Ok(p) ==> p.read_from(data@),
        r matches Err(e) ==> (e == DecodeError::TooShort <==> data@.len() < POOL_STATE_SIZE),
        r matches Err(e) ==> (e == DecodeError::TooShort || e == DecodeError::UnknownTag),
{
    if data.len() < POOL_STATE_SIZE {
        return Err(DecodeError::TooShort);
    }
    let amm_creator_fee_on = match AmmCreatorFeeOn::from_tag(data[POOL_STATE_CREATOR_FEE_TAG]) {
        Some(t) => t,
        None => {
            return Err(DecodeError::UnknownTag);
        },
    };
    Ok(
        PoolState {
            epoch: read_u64(data, 0),
            auth_bump: data[8],
            status: data[9],
            base_decimals: data[10],
            quote_decimals: data[11],
            migrate_type: data[12],
            supply: read_u64(data, 13),
            total_base_sell: read_u64(data, 21),
            virtual_base: read_u64(data, 29),
            virtual_quote: read_u64(data, 37),
            real_base: read_u64(data, 45),
            real_quote: read_u64(data, 53),
            total_quote_fund_raising: read_u64(data, 61),
            quote_protocol_fee: read_u64(data, 69),
            platform_fee: read_u64(data, 77),
            migrate_fee: read_u64(data, 85),
            vesting_schedule: VestingSchedule::read(data, 93),
            global_config: Pubkey::read(data, 133),
            platform_config: Pubkey::read(data, 165),
            base_mint: Pubkey::read(data, 197),
            quote_mint: Pubkey::read(data, 229),
            base_vault: Pubkey::read(data, 261),
            quote_vault: Pubkey::read(data, 293),
            creator: Pubkey::read(data, 325),
            token_program_flag: data[357],
            amm_creator_fee_on,
            platform_vesting_share: read_u64(data, 359),
            padding: read_bytes::<54>(data, 367),
        },
    )
}

/// Decodes the pool state at the start of `data`; bytes after it are ignored.
pub fn pool_state_decode(data: &[u8]) -> (r: Option<PoolState>)
    ensures
        r is Some <==> pool_state_decodable(data@),
        r matches Some(p) ==> p.read_from(data@),
{
    match pool_state_try_decode(data) {
        Ok(p) => Some(p),
        Err(_) => None,
    }
}

/// Decoding an encoded pool state, whatever bytes follow it, reads back every
/// field, the reserved tail included.
#[verifier::rlimit(60)]
pub proof fn lemma_pool_state_round_trip(p: PoolState, rest: Seq<u8>)
    ensures
        pool_state_decodable(p.encoded() + rest),
        p.read_from(p.encoded() + rest),
{
    let e = p.encoded();
    let s = e + rest;
    assert(e.len() == POOL_STATE_SIZE);
    assert(s.subrange(0, 8) =~= u64_bytes(p.epoch));
    lemma_u64_at(s, 0, p.epoch);
    assert(s.subrange(13, 21) =~= u64_bytes(p.supply));
    lemma_u64_at(s, 13, p.supply);
    assert(s.subrange(21, 29) =~= u64_bytes(p.total_base_sell));
    lemma_u64_at(s, 21, p.total_base_sell);
    assert(s.subrange(29, 37) =~= u64_bytes(p.virtual_base));
    lemma_u64_at(s, 29, p.virtual_base);
    assert(s.subrange(37, 45) =~= u64_bytes(p.virtual_quote));
    lemma_u64_at(s, 37, p.virtual_quote);
    assert(s.subrange(45, 53) =~= u64_bytes(p.real_base));
    lemma_u64_at(s, 45, p.real_base);
    assert(s.subrange(53, 61) =~= u64_bytes(p.real_quote));
    lemma_u64_at(s, 53, p.real_quote);
    assert(s.subrange(61, 69) =~= u64_bytes(p.total_quote_fund_raising));
    lemma_u64_at(s, 61, p.total_quote_fund_raising);
    assert(s.subrange(69, 77) =~= u64_bytes(p.quote_protocol_fee));
    lemma_u64_at(s, 69, p.quote_protocol_fee);
    assert(s.subrange(77, 85) =~= u64_bytes(p.platform_fee));
    lemma_u64_at(s, 77, p.platform_fee);
    assert(s.subrange(85, 93) =~= u64_bytes(p.migrate_fee));
    lemma_u64_at(s, 85, p.migrate_fee);
    assert(s.subrange(359, 367) =~= u64_bytes(p.platform_vesting_share));
    lemma_u64_at(s, 359, p.platform_vesting_share);
    assert(s[8] == e[8]);
    assert(s[9] == e[9]);
    assert(s[10] == e[10]);
    assert(s[11] == e[11]);
    assert(s[12] == e[12]);
    assert(s[357] == e[357]);
    assert(s[358] == e[358]);
    assert(s.subrange(93, 133) =~= p.vesting_schedule.encoded());
    p.vesting_schedule.lemma_read_encoded(s, 93);
    assert(s.subrange(133, 165) =~= p.global_config.0@);
    assert(s.subrange(165, 197) =~= p.platform_config.0@);
    assert(s.subrange(197, 229) =~= p.base_mint.0@);
    assert(s.subrange(229, 261) =~= p.quote_mint.0@);
    assert(s.subrange(261, 293) =~= p.base_vault.0@);
    assert(s.subrange(293, 325) =~= p.quote_vault.0@);
    assert(s.subrange(325, 357) =~= p.creator.0@);
    assert(s.subrange(367, 421) =~= p.padding@);
}

/// A buffer determines the pool state decoded from it: two decodes of the
/// same bytes agree in every field.
pub proof fn lemma_pool_state_read_unique(p: PoolState, q: PoolState, s: Seq<u8>)
    requires
        p.read_from(s),
        q.read_from(s),
    ensures
        p == q,
{
    p.global_config.lemma_read_unique(q.global_config, s, 133);
    p.platform_config.lemma_read_unique(q.platform_config, s, 165);
    p.base_mint.lemma_read_unique(q.base_mint, s, 197);
    p.quote_mint.lemma_read_unique(q.quote_mint, s, 229);
    p.base_vault.lemma_read_unique(q.base_vault, s, 261);
    p.quote_vault.lemma_read_unique(q.quote_vault, s, 293);
    p.creator.lemma_read_unique(q.creator, s, 325);
    assert(p.padding =~= q.padding);
}

/// Decoding a pool state reads only the first `POOL_STATE_SIZE` bytes: whatever
/// follows them changes neither whether decoding succeeds nor what it yields.
pub proof fn lemma_pool_state_reads_prefix_only(a: Seq<u8>)
    requires
        a.len() >= POOL_STATE_SIZE,
    ensures
        pool_state_decodable(a) == pool_state_decodable(a.subrange(0, POOL_STATE_SIZE as int)),
        forall|p: PoolState| p.read_from(a) == #[trigger] p.read_from(a.subrange(0, POOL_STATE_SIZE as int)),
{
    let t = a.subrange(0, POOL_STATE_SIZE as int);
    lemma_prefix_subranges(a, POOL_STATE_SIZE as int);
    assert(a[POOL_STATE_CREATOR_FEE_TAG as int] == t[POOL_STATE_CREATOR_FEE_TAG as int]);
    assert forall|p: PoolState| p.read_from(a) == #[trigger] p.read_from(t) by {}
}

/// Whatever is decoded from an encoded pool state, whatever bytes follow it, equals it in every
/// field, reserved regions included.
pub proof fn lemma_pool_state_decodes_to_encoded(p: PoolState, rest: Seq<u8>, q: PoolState)
    requires
        q.read_from(p.encoded() + rest),
    ensures
        q == p,
{
    lemma_pool_state_round_trip(p, rest);
    lemma_pool_state_read_unique(q, p, p.encoded() + rest);
}

} // verus!
