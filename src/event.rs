//! Account snapshots, event metadata, and the lifters that turn a snapshot
//! into a tagged account event.
use vstd::prelude::*;
use vstd::slice::slice_subrange;
use crate::global_config::{global_config_decode, GlobalConfig, GLOBAL_CONFIG_SIZE};
use crate::platform_config::{
    platform_config_decode, PlatformConfig, PLATFORM_CONFIG_SIZE, PLATFORM_CURVE_PARAM_SIZE,
};
use crate::pool_state::{pool_state_decodable, pool_state_decode, PoolState, POOL_STATE_SIZE};
use crate::records::Pubkey;

verus! {

/// Width of the leading discriminator region of an account's data, which is
/// not part of the record and is skipped unread.
pub const DISCRIMINATOR_SIZE: usize = 8;

/// A point-in-time view of an account: its address, flags, balance and data.
#[derive(Clone, Debug, PartialEq, Eq)]
pub struct AccountPretty {
    pub pubkey: Pubkey,
    pub executable: bool,
    pub lamports: u64,
    pub owner: Pubkey,
    pub rent_epoch: u64,
    pub data: Vec<u8>,
}

/// What kind of event a metadata value accompanies.
#[derive(Clone, Copy, Debug, PartialEq, Eq)]
pub enum EventType {
    Unknown,
    AccountBonkPoolState,
    AccountBonkGlobalConfig,
    AccountBonkPlatformConfig,
}

/// Correlation data that travels with every event.
#[derive(Clone, Copy, Debug, PartialEq, Eq)]
pub struct EventMetadata {
    pub slot: u64,
    pub block_time: i64,
    pub event_type: EventType,
}

/// `m` with its event type set to `t`, every other field kept.
pub open spec fn stamped(m: EventMetadata, t: EventType) -> EventMetadata {
    EventMetadata { event_type: t, ..m }
}

/// A decoded pool state, with the account it came from.
#[derive(Clone, Copy, Debug, PartialEq, Eq)]
pub struct BonkPoolStateAccountEvent {
    pub metadata: EventMetadata,
    pub pubkey: Pubkey,
    pub executable: bool,
    pub lamports: u64,
    pub owner: Pubkey,
    pub rent_epoch: u64,
    pub pool_state: PoolState,
}

/// A decoded global configuration, with the account it came from.
#[derive(Clone, Copy, Debug, PartialEq, Eq)]
pub struct BonkGlobalConfigAccountEvent {
    pub metadata: EventMetadata,
    pub pubkey: Pubkey,
    pub executable: bool,
    pub lamports: u64,
    pub owner: Pubkey,
    pub rent_epoch: u64,
    pub global_config: GlobalConfig,
}

/// A decoded platform configuration, with the account it came from.
#[derive(Clone, Debug, PartialEq, Eq)]
pub struct BonkPlatformConfigAccountEvent {
    pub metadata: EventMetadata,
    pub pubkey: Pubkey,
    pub executable: bool,
    pub lamports: u64,
    pub owner: Pubkey,
    pub rent_epoch: u64,
    pub platform_config: PlatformConfig,
}

/// An event lifted from an account snapshot.
#[derive(Clone, Debug, PartialEq, Eq)]
pub enum DexEvent {
    BonkPoolStateAccountEvent(BonkPoolStateAccountEvent),
    BonkGlobalConfigAccountEvent(BonkGlobalConfigAccountEvent),
    BonkPlatformConfigAccountEvent(BonkPlatformConfigAccountEvent),
}

/// The record's window of an account's data: `size` bytes after the
/// discriminator.
pub open spec fn record_window(account: AccountPretty, size: int) -> Seq<u8> {
    account.data@.subrange(DISCRIMINATOR_SIZE as int, DISCRIMINATOR_SIZE + size)
}

/// `e` echoes the account's address, flags, balance and owner.
pub open spec fn echoes(
    account: AccountPretty,
    pubkey: Pubkey,
    executable: bool,
    lamports: u64,
    owner: Pubkey,
    rent_epoch: u64,
) -> bool {
    &&& pubkey == account.pubkey
    &&& executable == account.executable
    &&& lamports == account.lamports
    &&& owner == account.owner
    &&& rent_epoch == account.rent_epoch
}

/// Lifts a pool state account into an event: skips the discriminator,
/// decodes the pool state that follows, and stamps the metadata.
pub fn pool_state_parser(account: &AccountPretty, metadata: EventMetadata) -> (r: Option<DexEvent>)
    ensures
        r is Some <==> account.data@.len() >= POOL_STATE_SIZE + DISCRIMINATOR_SIZE
            && pool_state_decodable(record_window(*account, POOL_STATE_SIZE as int)),
        r is Some ==> r->0 is BonkPoolStateAccountEvent,
        r matches Some(DexEvent::BonkPoolStateAccountEvent(e)) ==> {
            &&& e.metadata == stamped(metadata, EventType::AccountBonkPoolState)
            &&& echoes(*account, e.pubkey, e.executable, e.lamports, e.owner, e.rent_epoch)
            &&& e.pool_state.read_from(record_window(*account, POOL_STATE_SIZE as int))
        },
{
    let mut metadata = metadata;
    metadata.event_type = EventType::AccountBonkPoolState;
    if account.data.len() < POOL_STATE_SIZE + DISCRIMINATOR_SIZE {
        return None;
    }
    let window = slice_subrange(
        account.data.as_slice(),
        DISCRIMINATOR_SIZE,
        POOL_STATE_SIZE + DISCRIMINATOR_SIZE,
    );
    match pool_state_decode(window) {
        Some(pool_state) => Some(
            DexEvent::BonkPoolStateAccountEvent(
                BonkPoolStateAccountEvent {
                    metadata,
                    pubkey: account.pubkey,
                    executable: account.executable,
                    lamports: account.lamports,
                    owner: account.owner,
                    rent_epoch: account.rent_epoch,
                    pool_state,
                },
            ),
        ),
        None => None,
    }
}

/// Lifts a global configuration account into an event: skips the
/// discriminator, decodes the configuration that follows, and stamps the
/// metadata.
pub fn global_config_parser(account: &AccountPretty, metadata: EventMetadata) -> (r: Option<
    DexEvent,
>)
    ensures
        r is Some <==> account.data@.len() >= GLOBAL_CONFIG_SIZE + DISCRIMINATOR_SIZE,
        r is Some ==> r->0 is BonkGlobalConfigAccountEvent,
        r matches Some(DexEvent::BonkGlobalConfigAccountEvent(e)) ==> {
            &&& e.metadata == stamped(metadata, EventType::AccountBonkGlobalConfig)
            &&& echoes(*account, e.pubkey, e.executable, e.lamports, e.owner, e.rent_epoch)
            &&& e.global_config.read_from(record_window(*account, GLOBAL_CONFIG_SIZE as int))
        },
{
    let mut metadata = metadata;
    metadata.event_type = EventType::AccountBonkGlobalConfig;
    if account.data.len() < GLOBAL_CONFIG_SIZE + DISCRIMINATOR_SIZE {
        return None;
    }
    let window = slice_subrange(
        account.data.as_slice(),
        DISCRIMINATOR_SIZE,
        GLOBAL_CONFIG_SIZE + DISCRIMINATOR_SIZE,
    );
    match global_config_decode(window) {
        Some(global_config) => Some(
            DexEvent::BonkGlobalConfigAccountEvent(
                BonkGlobalConfigAccountEvent {
                    metadata,
                    pubkey: account.pubkey,
                    executable: account.executable,
                    lamports: account.lamports,
                    owner: account.owner,
                    rent_epoch: account.rent_epoch,
                    global_config,
                },
            ),
        ),
        None => None,
    }
}

/// Lifts a platform configuration account into an event: skips the
/// discriminator and decodes the configuration's fixed prefix that follows
/// (the window holds no curve entries), and stamps the metadata.
pub fn platform_config_parser(account: &AccountPretty, metadata: EventMetadata) -> (r: Option<
    DexEvent,
>)
    ensures
        r is Some <==> account.data@.len() >= PLATFORM_CONFIG_SIZE + DISCRIMINATOR_SIZE,
        r is Some ==> r->0 is BonkPlatformConfigAccountEvent,
        r matches Some(DexEvent::BonkPlatformConfigAccountEvent(e)) ==> {
            &&& e.metadata == stamped(metadata, EventType::AccountBonkPlatformConfig)
            &&& echoes(*account, e.pubkey, e.executable, e.lamports, e.owner, e.rent_epoch)
            &&& e.platform_config.read_from(record_window(*account, PLATFORM_CONFIG_SIZE as int))
            &&& e.platform_config.curve_params@.len() == 0
        },
{
    let mut metadata = metadata;
    metadata.event_type = EventType::AccountBonkPlatformConfig;
    if account.data.len() < PLATFORM_CONFIG_SIZE + DISCRIMINATOR_SIZE {
        return None;
    }
    let window = slice_subrange(
        account.data.as_slice(),
        DISCRIMINATOR_SIZE,
        PLATFORM_CONFIG_SIZE + DISCRIMINATOR_SIZE,
    );
    assert(window@.len() == PLATFORM_CONFIG_SIZE);
    assert(0int % (PLATFORM_CURVE_PARAM_SIZE as int) == 0);
    match platform_config_decode(window) {
        Some(platform_config) => Some(
            DexEvent::BonkPlatformConfigAccountEvent(
                BonkPlatformConfigAccountEvent {
                    metadata,
                    pubkey: account.pubkey,
                    executable: account.executable,
                    lamports: account.lamports,
                    owner: account.owner,
                    rent_epoch: account.rent_epoch,
                    platform_config,
                },
            ),
        ),
        None => None,
    }
}

} // verus!
