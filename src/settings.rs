use vstd::prelude::*;

use crate::error::BPSError;
use crate::game::{keys_equal, Key};

verus! {

/// The early settings shape: the forfeiture timeout alone.
#[derive(Clone, Copy, Debug, PartialEq, Eq, Structural)]
pub struct BpsSettingsV1 {
    pub bump: u8,
    pub time_for_penalization: i64,
}

/// The current settings shape: forfeiture timeout, the authority that may
/// change the settings and receives the fees, and the fee each player pays
/// to enter a game.
#[derive(Clone, Copy, Debug, PartialEq, Eq)]
pub struct BpsSettingsV2 {
    pub bump: u8,
    pub time_for_penalization: i64,
    pub authority: Key,
    pub player_fee_lamports: u64,
}

/// Bytes that a current-shape settings record takes in account storage.
pub const SETTINGS_V2_ACCOUNT_SIZE: usize = 57;

impl BpsSettingsV2 {
    /// Bytes that a current-shape settings record takes in account storage.
    pub fn size() -> (r: usize)
        ensures
            r == SETTINGS_V2_ACCOUNT_SIZE,
    {
        8 + // discriminator
        1 + // bump
        8 + // time_for_penalization
        32 + // authority
        8 // player_fee_lamports
    }

    pub fn new(
        bump: u8,
        time_for_penalization: i64,
        authority: Key,
        player_fee_lamports: u64,
    ) -> (r: Self)
        ensures
            r == (BpsSettingsV2 { bump, time_for_penalization, authority, player_fee_lamports }),
    {
        BpsSettingsV2 { bump, time_for_penalization, authority, player_fee_lamports }
    }
}

/// The record at the early address: still in the early shape, or upgraded in
/// place to the current one.
#[derive(Clone, Copy, Debug, PartialEq, Eq)]
pub enum LegacySettings {
    Old(BpsSettingsV1),
    Upgraded(BpsSettingsV2),
}

/// The settings records of the program: the one at the early address and the
/// one at the current address, each of which may be absent.
#[derive(Clone, Copy, Debug, PartialEq, Eq)]
pub struct SettingsRegistry {
    pub legacy: Option<LegacySettings>,
    pub current: Option<BpsSettingsV2>,
}

/// The record that fee and timeout lookups use: the current-address record
/// where there is one, else the early-address record once it has the current
/// shape. An early-shape record is never used.
pub open spec fn spec_authoritative(reg: SettingsRegistry) -> Option<BpsSettingsV2> {
    match reg.current {
        Some(s) => Some(s),
        None => match reg.legacy {
            Some(LegacySettings::Upgraded(s)) => Some(s),
            _ => None,
        },
    }
}

impl SettingsRegistry {
    /// A registry with no records.
    pub fn new() -> (r: Self)
        ensures
            r.legacy is None,
            r.current is None,
    {
        SettingsRegistry { legacy: None, current: None }
    }

    /// The record that fee and timeout lookups use.
    pub fn authoritative(&self) -> (r: Option<BpsSettingsV2>)
        ensures
            r == spec_authoritative(*self),
    {
        match self.current {
            Some(s) => Some(s),
            None => match self.legacy {
                Some(LegacySettings::Upgraded(s)) => Some(s),
                _ => None,
            },
        }
    }
}

/// Creates the record at the early address, already in the current shape,
/// with the caller as authority. Only the operator may do so, and only while
/// no record exists.
pub fn init_bps_settings(
    reg: &mut SettingsRegistry,
    caller: Key,
    operator: Key,
    bump: u8,
    time_for_penalization: i64,
    game_fee_lamports: u64,
) -> (r: Result<(), BPSError>)
    ensures
        caller != operator ==> r == Err::<(), BPSError>(BPSError::Unauthorized),
        caller == operator && (old(reg).legacy is Some || old(reg).current is Some) ==> r == Err::<
            (),
            BPSError,
        >(BPSError::InvalidSettingsState),
        r is Ok <==> caller == operator && old(reg).legacy is None && old(reg).current is None,
        r is Err ==> *final(reg) == *old(reg),
        r is Ok ==> *final(reg) == (SettingsRegistry {
            legacy: Some(
                LegacySettings::Upgraded(
                    BpsSettingsV2 {
                        bump,
                        time_for_penalization,
                        authority: caller,
                        player_fee_lamports: game_fee_lamports,
                    },
                ),
            ),
            current: None,
        }),
{
    if !keys_equal(&caller, &operator) {
        return Err(BPSError::Unauthorized);
    }
    if reg.legacy.is_some() || reg.current.is_some() {
        return Err(BPSError::InvalidSettingsState);
    }
    reg.legacy = Some(
        LegacySettings::Upgraded(
            BpsSettingsV2::new(bump, time_for_penalization, caller, game_fee_lamports),
        ),
    );
    Ok(())
}

/// Creates the record at the current address with the caller as authority.
/// Only the operator may do so, and only while that record does not exist.
pub fn init_bps_settings_v2(
    reg: &mut SettingsRegistry,
    caller: Key,
    operator: Key,
    bump: u8,
    time_for_penalization: i64,
    game_fee_lamports: u64,
) -> (r: Result<(), BPSError>)
    ensures
        caller != operator ==> r == Err::<(), BPSError>(BPSError::Unauthorized),
        caller == operator && old(reg).current is Some ==> r == Err::<(), BPSError>(
            BPSError::InvalidSettingsState,
        ),
        r is Ok <==> caller == operator && old(reg).current is None,
        r is Err ==> *final(reg) == *old(reg),
        r is Ok ==> *final(reg) == (SettingsRegistry {
            current: Some(
                BpsSettingsV2 {
                    bump,
                    time_for_penalization,
                    authority: caller,
                    player_fee_lamports: game_fee_lamports,
                },
            ),
            ..*old(reg)
        }),
{
    if !keys_equal(&caller, &operator) {
        return Err(BPSError::Unauthorized);
    }
    if reg.current.is_some() {
        return Err(BPSError::InvalidSettingsState);
    }
    reg.current = Some(BpsSettingsV2::new(bump, time_for_penalization, caller, game_fee_lamports));
    Ok(())
}

/// The early-address record brought to the current shape: the timeout and
/// bump are kept, the authority and fee are set.
pub open spec fn spec_upgraded(old_record: LegacySettings, authority: Key, fee: u64) -> BpsSettingsV2 {
    match old_record {
        LegacySettings::Old(s) => BpsSettingsV2 {
            bump: s.bump,
            time_for_penalization: s.time_for_penalization,
            authority,
            player_fee_lamports: fee,
        },
        LegacySettings::Upgraded(s) => BpsSettingsV2 {
            authority,
            player_fee_lamports: fee,
            ..s
        },
    }
}

/// Upgrades the early-address record in place to the current shape, keeping
/// its timeout and setting the caller as authority and the given fee. Only the
/// operator may do so, and only where that record exists.
pub fn update_bps_settings(
    reg: &mut SettingsRegistry,
    caller: Key,
    operator: Key,
    player_fee_lamports: u64,
) -> (r: Result<(), BPSError>)
    ensures
        caller != operator ==> r == Err::<(), BPSError>(BPSError::Unauthorized),
        caller == operator && old(reg).legacy is None ==> r == Err::<(), BPSError>(
            BPSError::InvalidSettingsState,
        ),
        r is Ok <==> caller == operator && old(reg).legacy is Some,
        r is Err ==> *final(reg) == *old(reg),
        r is Ok ==> old(reg).legacy is Some && *final(reg) == (SettingsRegistry {
            legacy: Some(
                LegacySettings::Upgraded(
                    spec_upgraded(old(reg).legacy->Some_0, caller, player_fee_lamports),
                ),
            ),
            ..*old(reg)
        }),
{
    if !keys_equal(&caller, &operator) {
        return Err(BPSError::Unauthorized);
    }
    let upgraded = match reg.legacy {
        Some(LegacySettings::Old(s)) => BpsSettingsV2::new(
            s.bump,
            s.time_for_penalization,
            caller,
            player_fee_lamports,
        ),
        Some(LegacySettings::Upgraded(s)) => BpsSettingsV2::new(
            s.bump,
            s.time_for_penalization,
            caller,
            player_fee_lamports,
        ),
        None => {
            return Err(BPSError::InvalidSettingsState);
        },
    };
    reg.legacy = Some(LegacySettings::Upgraded(upgraded));
    Ok(())
}

/// Overwrites the timeout, the fee and the authority of the current-address
/// record. Only its stored authority may do so.
pub fn update_bps_settings_v2(
    reg: &mut SettingsRegistry,
    caller: Key,
    time_for_penalization: i64,
    player_fee_lamports: u64,
    new_authority: Key,
) -> (r: Result<(), BPSError>)
    ensures
        old(reg).current is None ==> r == Err::<(), BPSError>(BPSError::InvalidSettingsState),
        old(reg).current matches Some(s) && s.authority != caller ==> r == Err::<(), BPSError>(
            BPSError::Unauthorized,
        ),
        r is Ok <==> (old(reg).current matches Some(s) && s.authority == caller),
        r is Err ==> *final(reg) == *old(reg),
        r is Ok ==> old(reg).current is Some && *final(reg) == (SettingsRegistry {
            current: Some(
                BpsSettingsV2 {
                    time_for_penalization,
                    authority: new_authority,
                    player_fee_lamports,
                    ..old(reg).current->Some_0
                },
            ),
            ..*old(reg)
        }),
{
    match reg.current {
        None => Err(BPSError::InvalidSettingsState),
        Some(s) => {
            if !keys_equal(&s.authority, &caller) {
                return Err(BPSError::Unauthorized);
            }
            reg.current = Some(
                BpsSettingsV2::new(s.bump, time_for_penalization, new_authority, player_fee_lamports),
            );
            Ok(())
        },
    }
}

/// Removes the early-address record once the current-address record exists.
/// Only the operator may do so.
pub fn close_bps_settings_v1(reg: &mut SettingsRegistry, caller: Key, operator: Key) -> (r: Result<
    (),
    BPSError,
>)
    ensures
        caller != operator ==> r == Err::<(), BPSError>(BPSError::Unauthorized),
        caller == operator && (old(reg).legacy is None || old(reg).current is None) ==> r == Err::<
            (),
            BPSError,
        >(BPSError::InvalidSettingsState),
        r is Ok <==> caller == operator && old(reg).legacy is Some && old(reg).current is Some,
        r is Err ==> *final(reg) == *old(reg),
        r is Ok ==> *final(reg) == (SettingsRegistry { legacy: None, ..*old(reg) }),
        r is Ok ==> spec_authoritative(*final(reg)) == spec_authoritative(*old(reg)),
{
    if !keys_equal(&caller, &operator) {
        return Err(BPSError::Unauthorized);
    }
    if reg.legacy.is_none() || reg.current.is_none() {
        return Err(BPSError::InvalidSettingsState);
    }
    reg.legacy = None;
    Ok(())
}

} // verus!
