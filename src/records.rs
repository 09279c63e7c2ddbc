//! Addresses, tagged enums and the small fixed-layout sub-records that the
//! account records embed.
use vstd::prelude::*;
use crate::wire::{all_zero, lemma_split, lemma_u64_at, read_bytes, read_u64, u64_at, u64_bytes};

verus! {

/// A 32-byte account address.
#[derive(Clone, Copy, Debug, PartialEq, Eq)]
pub struct Pubkey(pub [u8; 32]);

/// Encoded size of an address.
pub const PUBKEY_SIZE: usize = 32;

impl Pubkey {
    /// The address whose bytes are `s[off..off + 32]`.
    pub open spec fn read_from(self, s: Seq<u8>, off: int) -> bool {
        self.0@ == s.subrange(off, off + 32)
    }

    pub fn read(data: &[u8], off: usize) -> (r: Pubkey)
        requires
            off + PUBKEY_SIZE <= data.len(),
        ensures
            r.read_from(data@, off as int),
    {
        Pubkey(read_bytes::<32>(data, off))
    }

    /// Two addresses read from the same bytes are the same address.
    pub proof fn lemma_read_unique(self, other: Pubkey, s: Seq<u8>, off: int)
        requires
            self.read_from(s, off),
            other.read_from(s, off),
        ensures
            self == other,
    {
        assert(self.0 =~= other.0);
    }
}

/// Why a buffer does not hold a record.
#[derive(Clone, Copy, Debug, PartialEq, Eq)]
pub enum DecodeError {
    /// Fewer bytes than the record's fixed layout needs.
    TooShort,
    /// A tagged field holds a byte that names no variant.
    UnknownTag,
    /// The bytes after a fixed prefix do not split into whole entries.
    MisalignedTail,
}

/// Direction of a trade; tag 0 is a buy, 1 a sell.
#[derive(Clone, Copy, Debug, PartialEq, Eq)]
pub enum TradeDirection {
    Buy,
    Sell,
}

/// Lifecycle stage of a pool; tags 0, 1, 2.
#[derive(Clone, Copy, Debug, PartialEq, Eq)]
pub enum PoolStatus {
    Fund,
    Migrate,
    Trade,
}

/// Which side an AMM fee is taken on; tags 0, 1.
#[derive(Clone, Copy, Debug, PartialEq, Eq)]
pub enum AmmFeeOn {
    QuoteToken,
    BothToken,
}

/// Which side the AMM creator fee is taken on; tags 0, 1.
#[derive(Clone, Copy, Debug, PartialEq, Eq)]
pub enum AmmCreatorFeeOn {
    QuoteToken,
    BothToken,
}

/// The direction a one-byte tag names, if any.
pub open spec fn trade_direction_of(tag: u8) -> Option<TradeDirection> {
    if tag == 0 {
        Some(TradeDirection::Buy)
    } else if tag == 1 {
        Some(TradeDirection::Sell)
    } else {
        None
    }
}

/// The status a one-byte tag names, if any.
pub open spec fn pool_status_of(tag: u8) -> Option<PoolStatus> {
    if tag == 0 {
        Some(PoolStatus::Fund)
    } else if tag == 1 {
        Some(PoolStatus::Migrate)
    } else if tag == 2 {
        Some(PoolStatus::Trade)
    } else {
        None
    }
}

/// The fee side a one-byte tag names, if any.
pub open spec fn amm_fee_on_of(tag: u8) -> Option<AmmFeeOn> {
    if tag == 0 {
        Some(AmmFeeOn::QuoteToken)
    } else if tag == 1 {
        Some(AmmFeeOn::BothToken)
    } else {
        None
    }
}

/// The creator fee side a one-byte tag names, if any.
pub open spec fn amm_creator_fee_on_of(tag: u8) -> Option<AmmCreatorFeeOn> {
    if tag == 0 {
        Some(AmmCreatorFeeOn::QuoteToken)
    } else if tag == 1 {
        Some(AmmCreatorFeeOn::BothToken)
    } else {
        None
    }
}

impl TradeDirection {
    pub open spec fn spec_tag(self) -> u8 {
        match self {
            TradeDirection::Buy => 0,
            TradeDirection::Sell => 1,
        }
    }

    pub fn from_tag(tag: u8) -> (r: Option<TradeDirection>)
        ensures
            r == trade_direction_of(tag),
    {
        match tag {
            0 => Some(TradeDirection::Buy),
            1 => Some(TradeDirection::Sell),
            _ => None,
        }
    }
}

impl PoolStatus {
    pub open spec fn spec_tag(self) -> u8 {
        match self {
            PoolStatus::Fund => 0,
            PoolStatus::Migrate => 1,
            PoolStatus::Trade => 2,
        }
    }

    pub fn from_tag(tag: u8) -> (r: Option<PoolStatus>)
        ensures
            r == pool_status_of(tag),
    {
        match tag {
            0 => Some(PoolStatus::Fund),
            1 => Some(PoolStatus::Migrate),
            2 => Some(PoolStatus::Trade),
            _ => None,
        }
    }
}

impl AmmFeeOn {
    pub open spec fn spec_tag(self) -> u8 {
        match self {
            AmmFeeOn::QuoteToken => 0,
            AmmFeeOn::BothToken => 1,
        }
    }

    pub fn from_tag(tag: u8) -> (r: Option<AmmFeeOn>)
        ensures
            r == amm_fee_on_of(tag),
    {
        match tag {
            0 => Some(AmmFeeOn::QuoteToken),
            1 => Some(AmmFeeOn::BothToken),
            _ => None,
        }
    }
}

impl AmmCreatorFeeOn {
    pub open spec fn spec_tag(self) -> u8 {
        match self {
            AmmCreatorFeeOn::QuoteToken => 0,
            AmmCreatorFeeOn::BothToken => 1,
        }
    }

    pub fn from_tag(tag: u8) -> (r: Option<AmmCreatorFeeOn>)
        ensures
            r == amm_creator_fee_on_of(tag),
    {
        match tag {
            0 => Some(AmmCreatorFeeOn::QuoteToken),
            1 => Some(AmmCreatorFeeOn::BothToken),
            _ => None,
        }
    }
}

/// Each variant's tag names that variant.
pub proof fn lemma_tags_name_their_variants(
    d: TradeDirection,
    st: PoolStatus,
    f: AmmFeeOn,
    c: AmmCreatorFeeOn,
)
    ensures
        trade_direction_of(d.spec_tag()) == Some(d),
        pool_status_of(st.spec_tag()) == Some(st),
        amm_fee_on_of(f.spec_tag()) == Some(f),
        amm_creator_fee_on_of(c.spec_tag()) == Some(c),
{
}

/// A byte names a variant exactly when it is one of the defined tags, and
/// then it is that variant's tag.
pub proof fn lemma_only_defined_tags_decode(t: u8)
    ensures
        trade_direction_of(t) is Some <==> t <= 1,
        pool_status_of(t) is Some <==> t <= 2,
        amm_fee_on_of(t) is Some <==> t <= 1,
        amm_creator_fee_on_of(t) is Some <==> t <= 1,
        trade_direction_of(t) matches Some(v) ==> v.spec_tag() == t,
        pool_status_of(t) matches Some(v) ==> v.spec_tag() == t,
        amm_fee_on_of(t) matches Some(v) ==> v.spec_tag() == t,
        amm_creator_fee_on_of(t) matches Some(v) ==> v.spec_tag() == t,
{
}

/// Parameters of a new token mint.
#[derive(Clone, Debug, PartialEq, Eq)]
pub struct MintParams {
    pub decimals: u8,
    pub name: String,
    pub symbol: String,
    pub uri: String,
}

/// Vesting parameters as given when a pool is created.
#[derive(Clone, Copy, Debug, PartialEq, Eq)]
pub struct VestingParams {
    pub total_locked_amount: u64,
    pub cliff_period: u64,
    pub unlock_period: u64,
}

/// A constant-product curve's parameters.
#[derive(Clone, Copy, Debug, PartialEq, Eq)]
pub struct ConstantCurve {
    pub supply: u64,
    pub total_base_sell: u64,
    pub total_quote_fund_raising: u64,
    pub migrate_type: u8,
}

/// A fixed-price curve's parameters.
#[derive(Clone, Copy, Debug, PartialEq, Eq)]
pub struct FixedCurve {
    pub supply: u64,
    pub total_quote_fund_raising: u64,
    pub migrate_type: u8,
}

/// A linear-price curve's parameters.
#[derive(Clone, Copy, Debug, PartialEq, Eq)]
pub struct LinearCurve {
    pub supply: u64,
    pub total_quote_fund_raising: u64,
    pub migrate_type: u8,
}

/// A curve's parameters, by kind.
#[derive(Clone, Copy, Debug, PartialEq, Eq)]
pub enum CurveParams {
    Constant { data: ConstantCurve },
    Fixed { data: FixedCurve },
    Linear { data: LinearCurve },
}

/// Encoded size of a vesting schedule: five words.
pub const VESTING_SCHEDULE_SIZE: usize = 8 * 5;

/// A pool's vesting schedule.
#[derive(Clone, Copy, Debug, PartialEq, Eq)]
pub struct VestingSchedule {
    pub total_locked_amount: u64,
    pub cliff_period: u64,
    pub unlock_period: u64,
    pub start_time: u64,
    pub allocated_share_amount: u64,
}

impl VestingSchedule {
    /// The five words in field order, little-endian.
    pub open spec fn encoded(self) -> Seq<u8> {
        u64_bytes(self.total_locked_amount) + u64_bytes(self.cliff_period) + u64_bytes(
            self.unlock_period,
        ) + u64_bytes(self.start_time) + u64_bytes(self.allocated_share_amount)
    }

    /// Every field is zero.
    pub open spec fn is_zeroed(self) -> bool {
        &&& self.total_locked_amount == 0
        &&& self.cliff_period == 0
        &&& self.unlock_period == 0
        &&& self.start_time == 0
        &&& self.allocated_share_amount == 0
    }

    /// `self` is the schedule encoded at `s[off..off + 40]`.
    pub open spec fn read_from(self, s: Seq<u8>, off: int) -> bool {
        &&& self.total_locked_amount == u64_at(s, off)
        &&& self.cliff_period == u64_at(s, off + 8)
        &&& self.unlock_period == u64_at(s, off + 16)
        &&& self.start_time == u64_at(s, off + 24)
        &&& self.allocated_share_amount == u64_at(s, off + 32)
    }

    /// Where its encoding stands, the schedule reads back.
    pub proof fn lemma_read_encoded(self, s: Seq<u8>, off: int)
        requires
            0 <= off,
            off + VESTING_SCHEDULE_SIZE <= s.len(),
            s.subrange(off, off + VESTING_SCHEDULE_SIZE) == self.encoded(),
        ensures
            self.read_from(s, off),
    {
        let w0 = u64_bytes(self.total_locked_amount);
        let w1 = u64_bytes(self.cliff_period);
        let w2 = u64_bytes(self.unlock_period);
        let w3 = u64_bytes(self.start_time);
        let w4 = u64_bytes(self.allocated_share_amount);
        lemma_split(s, off, w0 + w1 + w2 + w3, w4);
        lemma_split(s, off, w0 + w1 + w2, w3);
        lemma_split(s, off, w0 + w1, w2);
        lemma_split(s, off, w0, w1);
        lemma_u64_at(s, off, self.total_locked_amount);
        lemma_u64_at(s, off + 8, self.cliff_period);
        lemma_u64_at(s, off + 16, self.unlock_period);
        lemma_u64_at(s, off + 24, self.start_time);
        lemma_u64_at(s, off + 32, self.allocated_share_amount);
    }

    pub fn read(data: &[u8], off: usize) -> (r: VestingSchedule)
        requires
            off + VESTING_SCHEDULE_SIZE <= data.len(),
        ensures
            r.read_from(data@, off as int),
    {
        VestingSchedule {
            total_locked_amount: read_u64(data, off),
            cliff_period: read_u64(data, off + 8),
            unlock_period: read_u64(data, off + 16),
            start_time: read_u64(data, off + 24),
            allocated_share_amount: read_u64(data, off + 32),
        }
    }
}

/// Encoded size of a bonding-curve parameter block.
pub const BONDING_CURVE_PARAM_SIZE: usize = 1 + 1 + 8 * 6;

/// Curve parameters that a platform offers.
#[derive(Clone, Copy, Debug, PartialEq, Eq)]
pub struct BondingCurveParam {
    pub migrate_type: u8,
    pub migrate_cpmm_fee_on: u8,
    pub supply: u64,
    pub total_base_sell: u64,
    pub total_quote_fund_raising: u64,
    pub total_locked_amount: u64,
    pub cliff_period: u64,
    pub unlock_period: u64,
}

impl BondingCurveParam {
    /// The fields in order: two bytes, then six little-endian words.
    pub open spec fn encoded(self) -> Seq<u8> {
        seq![self.migrate_type, self.migrate_cpmm_fee_on] + u64_bytes(self.supply) + u64_bytes(
            self.total_base_sell,
        ) + u64_bytes(self.total_quote_fund_raising) + u64_bytes(self.total_locked_amount)
            + u64_bytes(self.cliff_period) + u64_bytes(self.unlock_period)
    }

    /// Every field is zero.
    pub open spec fn is_zeroed(self) -> bool {
        &&& self.migrate_type == 0
        &&& self.migrate_cpmm_fee_on == 0
        &&& self.supply == 0
        &&& self.total_base_sell == 0
        &&& self.total_quote_fund_raising == 0
        &&& self.total_locked_amount == 0
        &&& self.cliff_period == 0
        &&& self.unlock_period == 0
    }

    /// `self` is the block encoded at `s[off..off + 50]`.
    pub open spec fn read_from(self, s: Seq<u8>, off: int) -> bool {
        &&& self.migrate_type == s[off]
        &&& self.migrate_cpmm_fee_on == s[off + 1]
        &&& self.supply == u64_at(s, off + 2)
        &&& self.total_base_sell == u64_at(s, off + 10)
        &&& self.total_quote_fund_raising == u64_at(s, off + 18)
        &&& self.total_locked_amount == u64_at(s, off + 26)
        &&& self.cliff_period == u64_at(s, off + 34)
        &&& self.unlock_period == u64_at(s, off + 42)
    }

    /// Where its encoding stands, the block reads back.
    pub proof fn lemma_read_encoded(self, s: Seq<u8>, off: int)
        requires
            0 <= off,
            off + BONDING_CURVE_PARAM_SIZE <= s.len(),
            s.subrange(off, off + BONDING_CURVE_PARAM_SIZE) == self.encoded(),
        ensures
            self.read_from(s, off),
    {
        let h = seq![self.migrate_type, self.migrate_cpmm_fee_on];
        let w0 = u64_bytes(self.supply);
        let w1 = u64_bytes(self.total_base_sell);
        let w2 = u64_bytes(self.total_quote_fund_raising);
        let w3 = u64_bytes(self.total_locked_amount);
        let w4 = u64_bytes(self.cliff_period);
        let w5 = u64_bytes(self.unlock_period);
        lemma_split(s, off, h + w0 + w1 + w2 + w3 + w4, w5);
        lemma_split(s, off, h + w0 + w1 + w2 + w3, w4);
        lemma_split(s, off, h + w0 + w1 + w2, w3);
        lemma_split(s, off, h + w0 + w1, w2);
        lemma_split(s, off, h + w0, w1);
        lemma_split(s, off, h, w0);
        assert(s[off] == s.subrange(off, off + 2)[0]);
        assert(s[off + 1] == s.subrange(off, off + 2)[1]);
        lemma_u64_at(s, off + 2, self.supply);
        lemma_u64_at(s, off + 10, self.total_base_sell);
        lemma_u64_at(s, off + 18, self.total_quote_fund_raising);
        lemma_u64_at(s, off + 26, self.total_locked_amount);
        lemma_u64_at(s, off + 34, self.cliff_period);
        lemma_u64_at(s, off + 42, self.unlock_period);
    }

    pub fn read(data: &[u8], off: usize) -> (r: BondingCurveParam)
        requires
            off + BONDING_CURVE_PARAM_SIZE <= data.len(),
        ensures
            r.read_from(data@, off as int),
    {
        BondingCurveParam {
            migrate_type: data[off],
            migrate_cpmm_fee_on: data[off + 1],
            supply: read_u64(data, off + 2),
            total_base_sell: read_u64(data, off + 10),
            total_quote_fund_raising: read_u64(data, off + 18),
            total_locked_amount: read_u64(data, off + 26),
            cliff_period: read_u64(data, off + 34),
            unlock_period: read_u64(data, off + 42),
        }
    }
}

impl Default for Pubkey {
    fn default() -> (r: Pubkey)
        ensures
            all_zero(r.0@),
    {
        Pubkey([0u8; 32])
    }
}

impl Default for TradeDirection {
    fn default() -> (r: TradeDirection)
        ensures
            r == TradeDirection::Buy,
    {
        TradeDirection::Buy
    }
}

impl Default for PoolStatus {
    fn default() -> (r: PoolStatus)
        ensures
            r == PoolStatus::Fund,
    {
        PoolStatus::Fund
    }
}

impl Default for AmmFeeOn {
    fn default() -> (r: AmmFeeOn)
        ensures
            r == AmmFeeOn::QuoteToken,
    {
        AmmFeeOn::QuoteToken
    }
}

impl Default for AmmCreatorFeeOn {
    fn default() -> (r: AmmCreatorFeeOn)
        ensures
            r == AmmCreatorFeeOn::QuoteToken,
    {
        AmmCreatorFeeOn::QuoteToken
    }
}

impl Default for MintParams {
    fn default() -> (r: MintParams)
        ensures
            r.decimals == 0,
            r.name@.len() == 0,
            r.symbol@.len() == 0,
            r.uri@.len() == 0,
    {
        MintParams { decimals: 0, name: String::new(), symbol: String::new(), uri: String::new() }
    }
}

impl Default for VestingParams {
    fn default() -> (r: VestingParams)
        ensures
            (r == VestingParams { total_locked_amount: 0, cliff_period: 0, unlock_period: 0 }),
    {
        VestingParams { total_locked_amount: 0, cliff_period: 0, unlock_period: 0 }
    }
}

impl Default for ConstantCurve {
    fn default() -> (r: ConstantCurve)
        ensures
            (r == ConstantCurve { supply: 0, total_base_sell: 0, total_quote_fund_raising: 0, migrate_type: 0 }),
    {
        ConstantCurve { supply: 0, total_base_sell: 0, total_quote_fund_raising: 0, migrate_type: 0 }
    }
}

impl Default for FixedCurve {
    fn default() -> (r: FixedCurve)
        ensures
            (r == FixedCurve { supply: 0, total_quote_fund_raising: 0, migrate_type: 0 }),
    {
        FixedCurve { supply: 0, total_quote_fund_raising: 0, migrate_type: 0 }
    }
}

impl Default for LinearCurve {
    fn default() -> (r: LinearCurve)
        ensures
            (r == LinearCurve { supply: 0, total_quote_fund_raising: 0, migrate_type: 0 }),
    {
        LinearCurve { supply: 0, total_quote_fund_raising: 0, migrate_type: 0 }
    }
}

impl Default for CurveParams {
    fn default() -> (r: CurveParams)
        ensures
            (r == CurveParams::Constant { data: ConstantCurve { supply: 0, total_base_sell: 0, total_quote_fund_raising: 0, migrate_type: 0 } }),
    {
        CurveParams::Constant { data: ConstantCurve::default() }
    }
}

impl Default for VestingSchedule {
    fn default() -> (r: VestingSchedule)
        ensures
            r.is_zeroed(),
    {
        VestingSchedule {
            total_locked_amount: 0,
            cliff_period: 0,
            unlock_period: 0,
            start_time: 0,
            allocated_share_amount: 0,
        }
    }
}

impl Default for BondingCurveParam {
    fn default() -> (r: BondingCurveParam)
        ensures
            r.is_zeroed(),
    {
        BondingCurveParam {
            migrate_type: 0,
            migrate_cpmm_fee_on: 0,
            supply: 0,
            total_base_sell: 0,
            total_quote_fund_raising: 0,
            total_locked_amount: 0,
            cliff_period: 0,
            unlock_period: 0,
        }
    }
}

} // verus!
