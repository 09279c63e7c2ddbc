//! The platform configuration record: a fixed prefix of platform-wide fees,
//! wallets and branding, then the curve parameters that the platform offers,
//! packed back to back until the end of the buffer.
use vstd::prelude::*;
use crate::records::{BondingCurveParam, DecodeError, Pubkey, BONDING_CURVE_PARAM_SIZE};
use crate::wire::{all_zero, all_zero_words, 
    lemma_split, lemma_u64_at, lemma_u64s_at, lemma_u64s_bytes_len, read_bytes, read_u64,
    read_u64s, u64_at, u64_bytes, u64s_at, u64s_bytes,
};

verus! {

/// Encoded size of one curve parameter entry: the epoch, the index, the
/// global configuration's address, the curve block and fifty reserved words.
pub const PLATFORM_CURVE_PARAM_SIZE: usize = 8 + 1 + 32 + BONDING_CURVE_PARAM_SIZE + 8 * 50;

/// Encoded size of a platform configuration's fixed prefix.
pub const PLATFORM_CONFIG_SIZE: usize = 8 + 32 * 2 + 8 * 4 + 64 + 256 + 256 + 32 + 8 + 32 + 32 + 8
    + 32 + 108;

/// One curve a platform offers.
#[derive(Clone, Copy, Debug, PartialEq, Eq)]
pub struct PlatformCurveParam {
    pub epoch: u64,
    pub index: u8,
    pub global_config: Pubkey,
    pub bonding_curve_param: BondingCurveParam,
    pub padding: [u64; 50],
}

impl PlatformCurveParam {
    /// The fields in declaration order, integers little-endian.
    pub open spec fn encoded(self) -> Seq<u8> {
        u64_bytes(self.epoch) + seq![self.index] + self.global_config.0@
            + self.bonding_curve_param.encoded() + u64s_bytes(self.padding@)
    }

    /// `self` is the entry encoded at `s[off..off + 491]`.
    pub open spec fn read_from(self, s: Seq<u8>, off: int) -> bool {
        &&& self.epoch == u64_at(s, off)
        &&& self.index == s[off + 8]
        &&& self.global_config.read_from(s, off + 9)
        &&& self.bonding_curve_param.read_from(s, off + 41)
        &&& self.padding@ == u64s_at(s, off + 91, 50)
    }

    pub fn read(data: &[u8], off: usize) -> (r: PlatformCurveParam)
        requires
            off + PLATFORM_CURVE_PARAM_SIZE <= data.len(),
        ensures
            r.read_from(data@, off as int),
    {
        PlatformCurveParam {
            epoch: read_u64(data, off),
            index: data[off + 8],
            global_config: Pubkey::read(data, off + 9),
            bonding_curve_param: BondingCurveParam::read(data, off + 41),
            padding: read_u64s::<50>(data, off + 91),
        }
    }

    /// Where its encoding stands, the entry reads back.
    pub proof fn lemma_read_encoded(self, s: Seq<u8>, off: int)
        requires
            0 <= off,
            off + PLATFORM_CURVE_PARAM_SIZE <= s.len(),
            s.subrange(off, off + PLATFORM_CURVE_PARAM_SIZE) == self.encoded(),
        ensures
            self.read_from(s, off),
    {
        let w0 = u64_bytes(self.epoch);
        let h = seq![self.index];
        let k = self.global_config.0@;
        let b = self.bonding_curve_param.encoded();
        let t = u64s_bytes(self.padding@);
        lemma_u64s_bytes_len(self.padding@);
        lemma_split(s, off, w0 + h + k + b, t);
        lemma_split(s, off, w0 + h + k, b);
        lemma_split(s, off, w0 + h, k);
        lemma_split(s, off, w0, h);
        lemma_u64_at(s, off, self.epoch);
        assert(s[off + 8] == s.subrange(off + 8, off + 9)[0]);
        self.bonding_curve_param.lemma_read_encoded(s, off + 41);
        lemma_u64s_at(s, off + 91, self.padding@);
    }

    /// Two entries read from the same bytes are equal in every field.
    pub proof fn lemma_read_unique(self, other: PlatformCurveParam, s: Seq<u8>, off: int)
        requires
            self.read_from(s, off),
            other.read_from(s, off),
        ensures
            self == other,
    {
        self.global_config.lemma_read_unique(other.global_config, s, off + 9);
        assert(self.padding =~= other.padding);
    }
}

impl PlatformCurveParam {
    /// Every integer is zero and every address, byte and word region all
    /// zeros.
    pub open spec fn is_zeroed(self) -> bool {
        &&& self.epoch == 0
        &&& self.index == 0
        &&& all_zero(self.global_config.0@)
        &&& self.bonding_curve_param.is_zeroed()
        &&& all_zero_words(self.padding@)
    }
}

impl Default for PlatformCurveParam {
    fn default() -> (r: PlatformCurveParam)
        ensures
            r.is_zeroed(),
    {
        PlatformCurveParam {
            epoch: 0,
            index: 0,
            global_config: Pubkey::default(),
            bonding_curve_param: BondingCurveParam::default(),
            padding: [0u64; 50],
        }
    }
}

/// The entries' encodings, back to back.
pub open spec fn curve_params_bytes(ps: Seq<PlatformCurveParam>) -> Seq<u8>
    decreases ps.len(),
{
    if ps.len() == 0 {
        Seq::empty()
    } else {
        curve_params_bytes(ps.drop_last()) + ps.last().encoded()
    }
}

pub proof fn lemma_curve_params_bytes_len(ps: Seq<PlatformCurveParam>)
    ensures
        curve_params_bytes(ps).len() == 491 * ps.len(),
    decreases ps.len(),
{
    if ps.len() > 0 {
        lemma_curve_params_bytes_len(ps.drop_last());
        lemma_u64s_bytes_len(ps.last().padding@);
        assert(ps.last().encoded().len() == 491);
    }
}

/// Entry `i` of a packed run that starts at `off` stands `i` entry sizes
/// (491 bytes each) further on.
pub open spec fn curve_params_read_from(ps: Seq<PlatformCurveParam>, s: Seq<u8>, off: int) -> bool {
    forall|i: int|
        0 <= i < ps.len() ==> #[trigger] ps[i].read_from(s, off + 491 * i)
}

/// Where a packed run of entries stands, each entry reads back.
pub proof fn lemma_curve_params_read_encoded(ps: Seq<PlatformCurveParam>, s: Seq<u8>, off: int)
    requires
        0 <= off,
        off + 491 * ps.len() <= s.len(),
        s.subrange(off, off + 491 * ps.len()) == curve_params_bytes(ps),
    ensures
        curve_params_read_from(ps, s, off),
    decreases ps.len(),
{
    if ps.len() > 0 {
        let init = ps.drop_last();
        let last = ps.last();
        lemma_curve_params_bytes_len(init);
        lemma_u64s_bytes_len(last.padding@);
        lemma_split(s, off, curve_params_bytes(init), last.encoded());
        lemma_curve_params_read_encoded(init, s, off);
        last.lemma_read_encoded(s, off + 491 * init.len());
        assert forall|i: int| 0 <= i < ps.len() implies #[trigger] ps[i].read_from(s, off + 491 * i) by {
            if i < init.len() {
                assert(init[i] == ps[i]);
            }
        }
    }
}

/// Platform-wide fees, wallets and branding, with the curves on offer.
#[derive(Clone, Debug, PartialEq, Eq)]
pub struct PlatformConfig {
    pub epoch: u64,
    pub platform_fee_wallet: Pubkey,
    pub platform_nft_wallet: Pubkey,
    pub platform_scale: u64,
    pub creator_scale: u64,
    pub burn_scale: u64,
    pub fee_rate: u64,
    pub name: [u8; 64],
    pub web: [u8; 256],
    pub img: [u8; 256],
    pub cpswap_config: Pubkey,
    pub creator_fee_rate: u64,
    pub transfer_fee_extension_auth: Pubkey,
    pub platform_vesting_wallet: Pubkey,
    pub platform_vesting_scale: u64,
    pub platform_cp_creator: Pubkey,
    pub padding: [u8; 108],
    pub curve_params: Vec<PlatformCurveParam>,
}

impl PlatformConfig {
    /// The fixed prefix's fields in declaration order, integers
    /// little-endian, arrays as they stand.
    #[verifier::opaque]
    pub open spec fn prefix_encoded(self) -> Seq<u8> {
        u64_bytes(self.epoch) + self.platform_fee_wallet.0@ + self.platform_nft_wallet.0@ + u64_bytes(self.platform_scale) + u64_bytes(self.creator_scale) + u64_bytes(self.burn_scale) + u64_bytes(self.fee_rate) + self.name@ + self.web@ + self.img@ + self.cpswap_config.0@ + u64_bytes(self.creator_fee_rate) + self.transfer_fee_extension_auth.0@ + self.platform_vesting_wallet.0@ + u64_bytes(self.platform_vesting_scale) + self.platform_cp_creator.0@ + self.padding@
    }

    /// The fixed prefix, then every entry's encoding, back to back.
    pub open spec fn encoded(self) -> Seq<u8> {
        self.prefix_encoded() + curve_params_bytes(self.curve_params@)
    }

    /// `self`'s fixed prefix is encoded at the start of `s`.
    #[verifier::opaque]
    pub open spec fn prefix_read_from(self, s: Seq<u8>) -> bool {
        &&& self.epoch == u64_at(s, 0)
        &&& self.platform_fee_wallet.read_from(s, 8)
        &&& self.platform_nft_wallet.read_from(s, 40)
        &&& self.platform_scale == u64_at(s, 72)
        &&& self.creator_scale == u64_at(s, 80)
        &&& self.burn_scale == u64_at(s, 88)
        &&& self.fee_rate == u64_at(s, 96)
        &&& self.name@ == s.subrange(104, 168)
        &&& self.web@ == s.subrange(168, 424)
        &&& self.img@ == s.subrange(424, 680)
        &&& self.cpswap_config.read_from(s, 680)
        &&& self.creator_fee_rate == u64_at(s, 712)
        &&& self.transfer_fee_extension_auth.read_from(s, 720)
        &&& self.platform_vesting_wallet.read_from(s, 752)
        &&& self.platform_vesting_scale == u64_at(s, 784)
        &&& self.platform_cp_creator.read_from(s, 792)
        &&& self.padding@ == s.subrange(824, 932)
    }

    /// `self` is the configuration encoded in the whole of `s`: the prefix,
    /// then as many entries as fill the rest.
    pub open spec fn read_from(self, s: Seq<u8>) -> bool {
        &&& self.prefix_read_from(s)
        &&& self.curve_params@.len() == (s.len() - PLATFORM_CONFIG_SIZE) / (
        PLATFORM_CURVE_PARAM_SIZE as int)
        &&& curve_params_read_from(self.curve_params@, s, PLATFORM_CONFIG_SIZE as int)
    }
}

impl PlatformConfig {
    /// `self` and `o` are equal in every field, entry by entry.
    pub open spec fn agrees_with(self, o: PlatformConfig) -> bool {
        &&& self.epoch == o.epoch
        &&& self.platform_fee_wallet == o.platform_fee_wallet
        &&& self.platform_nft_wallet == o.platform_nft_wallet
        &&& self.platform_scale == o.platform_scale
        &&& self.creator_scale == o.creator_scale
        &&& self.burn_scale == o.burn_scale
        &&& self.fee_rate == o.fee_rate
        &&& self.name == o.name
        &&& self.web == o.web
        &&& self.img == o.img
        &&& self.cpswap_config == o.cpswap_config
        &&& self.creator_fee_rate == o.creator_fee_rate
        &&& self.transfer_fee_extension_auth == o.transfer_fee_extension_auth
        &&& self.platform_vesting_wallet == o.platform_vesting_wallet
        &&& self.platform_vesting_scale == o.platform_vesting_scale
        &&& self.platform_cp_creator == o.platform_cp_creator
        &&& self.padding == o.padding
        &&& self.curve_params@ == o.curve_params@
    }
}

impl PlatformConfig {
    /// Every integer is zero and every address, byte and word region all
    /// zeros, with no curve entries.
    pub open spec fn is_zeroed(self) -> bool {
        &&& self.epoch == 0
        &&& all_zero(self.platform_fee_wallet.0@)
        &&& all_zero(self.platform_nft_wallet.0@)
        &&& self.platform_scale == 0
        &&& self.creator_scale == 0
        &&& self.burn_scale == 0
        &&& self.fee_rate == 0
        &&& all_zero(self.name@)
        &&& all_zero(self.web@)
        &&& all_zero(self.img@)
        &&& all_zero(self.cpswap_config.0@)
        &&& self.creator_fee_rate == 0
        &&& all_zero(self.transfer_fee_extension_auth.0@)
        &&& all_zero(self.platform_vesting_wallet.0@)
        &&& self.platform_vesting_scale == 0
        &&& all_zero(self.platform_cp_creator.0@)
        &&& all_zero(self.padding@)
        &&& self.curve_params@.len() == 0
    }
}

impl Default for PlatformConfig {
    fn default() -> (r: PlatformConfig)
        ensures
            r.is_zeroed(),
    {
        PlatformConfig {
            epoch: 0,
            platform_fee_wallet: Pubkey::default(),
            platform_nft_wallet: Pubkey::default(),
            platform_scale: 0,
            creator_scale: 0,
            burn_scale: 0,
            fee_rate: 0,
            name: [0u8; 64],
            web: [0u8; 256],
            img: [0u8; 256],
            cpswap_config: Pubkey::default(),
            creator_fee_rate: 0,
            transfer_fee_extension_auth: Pubkey::default(),
            platform_vesting_wallet: Pubkey::default(),
            platform_vesting_scale: 0,
            platform_cp_creator: Pubkey::default(),
            padding: [0u8; 108],
            curve_params: Vec::new(),
        }
    }
}

/// `s` holds a platform configuration: the fixed prefix, then a whole number
/// of entries and nothing else.
pub open spec fn platform_config_decodable(s: Seq<u8>) -> bool {
    &&& s.len() >= PLATFORM_CONFIG_SIZE
    &&& (s.len() - PLATFORM_CONFIG_SIZE) % (PLATFORM_CURVE_PARAM_SIZE as int) == 0
}

fn read_prefix(data: &[u8], curve_params: Vec<PlatformCurveParam>) -> (r: PlatformConfig)
    requires
        PLATFORM_CONFIG_SIZE <= data.len(),
    ensures
        r.prefix_read_from(data@),
        r.curve_params == curve_params,
{
    reveal(PlatformConfig::prefix_read_from);
    PlatformConfig {
            epoch: read_u64(data, 0),
            platform_fee_wallet: Pubkey::read(data, 8),
            platform_nft_wallet: Pubkey::read(data, 40),
            platform_scale: read_u64(data, 72),
            creator_scale: read_u64(data, 80),
            burn_scale: read_u64(data, 88),
            fee_rate: read_u64(data, 96),
            name: read_bytes::<64>(data, 104),
            web: read_bytes::<256>(data, 168),
            img: read_bytes::<256>(data, 424),
            cpswap_config: Pubkey::read(data, 680),
            creator_fee_rate: read_u64(data, 712),
            transfer_fee_extension_auth: Pubkey::read(data, 720),
            platform_vesting_wallet: Pubkey::read(data, 752),
            platform_vesting_scale: read_u64(data, 784),
            platform_cp_creator: Pubkey::read(data, 792),
            padding: read_bytes::<108>(data, 824),
        curve_params,
    }
}

/// Decodes the platform configuration that fills `data`, saying why when it
/// cannot: the fixed prefix, then entries back to back until the end. A
/// partial last entry makes the whole decode fail.
pub fn platform_config_try_decode(data: &[u8]) -> (r: Result<PlatformConfig, DecodeError>)
    ensures
        r is Ok <==> platform_config_decodable(data@),
        r matches Ok(c) ==> c.read_from(data@),
        r matches Err(e) ==> (e == DecodeError::TooShort <==> data@.len() < PLATFORM_CONFIG_SIZE),
        r matches Err(e) ==> (e == DecodeError::TooShort || e == DecodeError::MisalignedTail),
{
    if data.len() < PLATFORM_CONFIG_SIZE {
        return Err(DecodeError::TooShort);
    }
    let rest = data.len() - PLATFORM_CONFIG_SIZE;
    if rest % PLATFORM_CURVE_PARAM_SIZE != 0 {
        return Err(DecodeError::MisalignedTail);
    }
    let n = rest / PLATFORM_CURVE_PARAM_SIZE;
    assert(rest == 491 * n) by (nonlinear_arith)
        requires
            rest % 491 == 0,
            n == rest / 491,
    ;
    let mut curve_params: Vec<PlatformCurveParam> = Vec::new();
    let mut i: usize = 0;
    let mut off: usize = PLATFORM_CONFIG_SIZE;
    while i < n
        invariant
            n == rest / PLATFORM_CURVE_PARAM_SIZE,
            rest == data.len() - PLATFORM_CONFIG_SIZE,
            rest == 491 * n,
            i <= n,
            off == PLATFORM_CONFIG_SIZE + 491 * i,
            curve_params@.len() == i,
            curve_params_read_from(curve_params@, data@, PLATFORM_CONFIG_SIZE as int),
        decreases n - i,
    {
        let entry = PlatformCurveParam::read(data, off);
        let ghost before = curve_params@;
        curve_params.push(entry);
        assert forall|k: int| 0 <= k < curve_params@.len() implies #[trigger] curve_params@[k].read_from(
            data@,
            PLATFORM_CONFIG_SIZE + 491 * k,
        ) by {
            if k < i {
                assert(curve_params@[k] == before[k]);
            }
        }
        i = i + 1;
        off = off + PLATFORM_CURVE_PARAM_SIZE;
    }
    Ok(read_prefix(data, curve_params))
}

/// Decodes the platform configuration that fills `data`: the fixed prefix,
/// then entries back to back until the end. A partial last entry makes the
/// whole decode fail.
pub fn platform_config_decode(data: &[u8]) -> (r: Option<PlatformConfig>)
    ensures
        r is Some <==> platform_config_decodable(data@),
        r matches Some(c) ==> c.read_from(data@),
{
    match platform_config_try_decode(data) {
        Ok(c) => Some(c),
        Err(_) => None,
    }
}

/// The fixed prefix of an encoded platform configuration, whatever follows
/// it, reads back.
#[verifier::rlimit(40)]
pub proof fn lemma_platform_config_prefix_round_trip(p: PlatformConfig, rest: Seq<u8>)
    ensures
        p.prefix_read_from(p.prefix_encoded() + rest),
{
    reveal(PlatformConfig::prefix_encoded);
    reveal(PlatformConfig::prefix_read_from);
    let e = p.prefix_encoded();
    let s = e + rest;
    assert(e.len() == PLATFORM_CONFIG_SIZE);
    assert(s.subrange(0, 8) =~= u64_bytes(p.epoch));
    lemma_u64_at(s, 0, p.epoch);
    assert(s.subrange(8, 40) =~= p.platform_fee_wallet.0@);
    assert(s.subrange(40, 72) =~= p.platform_nft_wallet.0@);
    assert(s.subrange(72, 80) =~= u64_bytes(p.platform_scale));
    lemma_u64_at(s, 72, p.platform_scale);
    assert(s.subrange(80, 88) =~= u64_bytes(p.creator_scale));
    lemma_u64_at(s, 80, p.creator_scale);
    assert(s.subrange(88, 96) =~= u64_bytes(p.burn_scale));
    lemma_u64_at(s, 88, p.burn_scale);
    assert(s.subrange(96, 104) =~= u64_bytes(p.fee_rate));
    lemma_u64_at(s, 96, p.fee_rate);
    assert(s.subrange(104, 168) =~= p.name@);
    assert(s.subrange(168, 424) =~= p.web@);
    assert(s.subrange(424, 680) =~= p.img@);
    assert(s.subrange(680, 712) =~= p.cpswap_config.0@);
    assert(s.subrange(712, 720) =~= u64_bytes(p.creator_fee_rate));
    lemma_u64_at(s, 712, p.creator_fee_rate);
    assert(s.subrange(720, 752) =~= p.transfer_fee_extension_auth.0@);
    assert(s.subrange(752, 784) =~= p.platform_vesting_wallet.0@);
    assert(s.subrange(784, 792) =~= u64_bytes(p.platform_vesting_scale));
    lemma_u64_at(s, 784, p.platform_vesting_scale);
    assert(s.subrange(792, 824) =~= p.platform_cp_creator.0@);
    assert(s.subrange(824, 932) =~= p.padding@);
}

proof fn lemma_prefix_encoded_len(p: PlatformConfig)
    ensures
        p.prefix_encoded().len() == PLATFORM_CONFIG_SIZE,
{
    reveal(PlatformConfig::prefix_encoded);
}

proof fn lemma_entries_fill(n: nat)
    ensures
        (491 * n) % 491 == 0,
        (491 * n) / 491 == n,
{
    assert((491 * n) % 491 == 0 && (491 * n) / 491 == n) by (nonlinear_arith);
}

/// Decoding an encoded platform configuration reads back every field of the
/// prefix and every entry, the reserved bytes and words included.
pub proof fn lemma_platform_config_round_trip(p: PlatformConfig)
    ensures
        platform_config_decodable(p.encoded()),
        p.read_from(p.encoded()),
{
    let ps = p.curve_params@;
    let e = p.prefix_encoded();
    let t = curve_params_bytes(ps);
    let s = p.encoded();
    lemma_curve_params_bytes_len(ps);
    lemma_platform_config_prefix_round_trip(p, t);
    lemma_prefix_encoded_len(p);
    lemma_entries_fill(ps.len());
    assert(s.subrange(0, s.len() as int) =~= e + t);
    lemma_split(s, 0, e, t);
    lemma_curve_params_read_encoded(ps, s, PLATFORM_CONFIG_SIZE as int);
}

/// A buffer determines the platform configuration decoded from it: two
/// decodes of the same bytes agree in every field of the prefix and in every
/// entry.
pub proof fn lemma_platform_config_read_unique(p: PlatformConfig, q: PlatformConfig, s: Seq<u8>)
    requires
        p.read_from(s),
        q.read_from(s),
    ensures
        p.agrees_with(q),
{
    reveal(PlatformConfig::prefix_read_from);
    p.platform_fee_wallet.lemma_read_unique(q.platform_fee_wallet, s, 8);
    p.platform_nft_wallet.lemma_read_unique(q.platform_nft_wallet, s, 40);
    assert(p.name =~= q.name);
    assert(p.web =~= q.web);
    assert(p.img =~= q.img);
    p.cpswap_config.lemma_read_unique(q.cpswap_config, s, 680);
    p.transfer_fee_extension_auth.lemma_read_unique(q.transfer_fee_extension_auth, s, 720);
    p.platform_vesting_wallet.lemma_read_unique(q.platform_vesting_wallet, s, 752);
    p.platform_cp_creator.lemma_read_unique(q.platform_cp_creator, s, 792);
    assert(p.padding =~= q.padding);
    assert forall|i: int| 0 <= i < p.curve_params@.len() implies p.curve_params@[i]
        == q.curve_params@[i] by {
        p.curve_params@[i].lemma_read_unique(
            q.curve_params@[i],
            s,
            PLATFORM_CONFIG_SIZE + 491 * i,
        );
    }
    assert(p.curve_params@ =~= q.curve_params@);
}

/// Whatever is decoded from an encoded platform configuration, equals it in every
/// field, reserved regions included.
pub proof fn lemma_platform_config_decodes_to_encoded(p: PlatformConfig, q: PlatformConfig)
    requires
        q.read_from(p.encoded()),
    ensures
        q.agrees_with(p),
{
    lemma_platform_config_round_trip(p);
    lemma_platform_config_read_unique(q, p, p.encoded());
}

} // verus!
