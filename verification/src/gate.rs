//! Roles and the emergency gate.
//!
//! The proxy has three roles. The guardian halts and resumes value movement,
//! for everything or for one asset. The manager sets the caps. The withdrawal
//! manager signs withdrawals off. A role is handed on by its holder.

use vstd::prelude::*;
use crate::error::RoundLoaderError;
use crate::state::Settings;
use crate::types::Pubkey;

verus! {

/// The settings of the whole proxy: the holders of the three roles and the
/// emergency switch for everything.
#[derive(Clone, Copy, Debug)]
pub struct ProxySettings {
    pub is_initialized: bool,
    pub emergency: bool,
    pub guardian: Pubkey,
    pub manager: Pubkey,
    pub withdrawal_manager: Pubkey,
}

/// A role of the proxy.
#[derive(Clone, Copy, Debug, PartialEq, Eq, Structural)]
pub enum Role {
    Guardian,
    Manager,
    WithdrawalManager,
}

/// The holder of `role`.
pub open spec fn holder(proxy: ProxySettings, role: Role) -> Pubkey {
    match role {
        Role::Guardian => proxy.guardian,
        Role::Manager => proxy.manager,
        Role::WithdrawalManager => proxy.withdrawal_manager,
    }
}

/// `caller` holds `role`. Nobody holds a role before the proxy is initialized.
pub open spec fn holds(proxy: ProxySettings, role: Role, caller: Pubkey) -> bool {
    proxy.is_initialized && holder(proxy, role) == caller
}

/// Value movement of the asset is halted: by the switch for everything or by
/// the asset's own.
pub open spec fn halted(proxy: ProxySettings, settings: Settings) -> bool {
    proxy.emergency || settings.emergency
}

/// What handing a role on does: `Unauthorized` unless the caller holds it.
pub open spec fn change_role_spec(
    proxy: ProxySettings,
    role: Role,
    caller: Pubkey,
    successor: Pubkey,
) -> Result<ProxySettings, RoundLoaderError> {
    if !holds(proxy, role, caller) {
        Err(RoundLoaderError::Unauthorized)
    } else {
        Ok(
            match role {
                Role::Guardian => ProxySettings { guardian: successor, ..proxy },
                Role::Manager => ProxySettings { manager: successor, ..proxy },
                Role::WithdrawalManager => ProxySettings { withdrawal_manager: successor, ..proxy },
            },
        )
    }
}

/// What setting the switch for everything does: `Unauthorized` unless the
/// caller is the guardian.
pub open spec fn set_emergency_spec(proxy: ProxySettings, caller: Pubkey, on: bool) -> Result<
    ProxySettings,
    RoundLoaderError,
> {
    if !holds(proxy, Role::Guardian, caller) {
        Err(RoundLoaderError::Unauthorized)
    } else {
        Ok(ProxySettings { emergency: on, ..proxy })
    }
}

/// What setting the switch of one asset does: `Unauthorized` unless the
/// caller is the guardian.
pub open spec fn set_token_emergency_spec(
    proxy: ProxySettings,
    settings: Settings,
    caller: Pubkey,
    on: bool,
) -> Result<Settings, RoundLoaderError> {
    if !holds(proxy, Role::Guardian, caller) {
        Err(RoundLoaderError::Unauthorized)
    } else {
        Ok(Settings { emergency: on, ..settings })
    }
}

/// What setting the deposit cap does: `Unauthorized` unless the caller is
/// the manager.
pub open spec fn change_deposit_limit_spec(
    proxy: ProxySettings,
    settings: Settings,
    caller: Pubkey,
    limit: u64,
) -> Result<Settings, RoundLoaderError> {
    if !holds(proxy, Role::Manager, caller) {
        Err(RoundLoaderError::Unauthorized)
    } else {
        Ok(Settings { deposit_limit: limit, ..settings })
    }
}

/// What setting the withdrawal caps does: `Unauthorized` unless the caller
/// is the manager; a cap that is not given stays as it is.
pub open spec fn change_withdrawal_limits_spec(
    proxy: ProxySettings,
    settings: Settings,
    caller: Pubkey,
    limit: Option<u64>,
    daily_limit: Option<u64>,
) -> Result<Settings, RoundLoaderError> {
    if !holds(proxy, Role::Manager, caller) {
        Err(RoundLoaderError::Unauthorized)
    } else {
        Ok(
            Settings {
                withdrawal_limit: match limit {
                    Some(value) => value,
                    None => settings.withdrawal_limit,
                },
                withdrawal_daily_limit: match daily_limit {
                    Some(value) => value,
                    None => settings.withdrawal_daily_limit,
                },
                ..settings
            },
        )
    }
}

/// Switching the emergency on and off again restores the settings exactly:
/// the switch is the only thing that either step touches.
pub proof fn law_emergency_toggle_restores_settings(proxy: ProxySettings, guardian: Pubkey)
    requires
        holds(proxy, Role::Guardian, guardian),
        !proxy.emergency,
    ensures
        set_emergency_spec(proxy, guardian, true) is Ok,
        set_emergency_spec(proxy, guardian, true)->Ok_0.emergency,
        set_emergency_spec(set_emergency_spec(proxy, guardian, true)->Ok_0, guardian, false)
            == Ok::<ProxySettings, RoundLoaderError>(proxy),
{
}

/// The emergency does not end by itself: only a call of the guardian that
/// switches it off makes a halted proxy run again.
pub proof fn law_emergency_ends_only_by_guardian(proxy: ProxySettings, caller: Pubkey, on: bool)
    requires
        proxy.emergency,
    ensures
        set_emergency_spec(proxy, caller, on) matches Ok(next) ==> (next.emergency == on && holds(
            proxy,
            Role::Guardian,
            caller,
        )),
        set_emergency_spec(proxy, caller, on) is Err ==> !holds(proxy, Role::Guardian, caller),
        forall|role: Role, successor: Pubkey|
            #[trigger] change_role_spec(proxy, role, caller, successor) is Ok ==> change_role_spec(
                proxy,
                role,
                caller,
                successor,
            )->Ok_0.emergency,
{
}

/// A role that was handed on is held by the successor and, unless they are
/// the same, no longer by the former holder.
pub proof fn law_role_passes_to_successor(
    proxy: ProxySettings,
    role: Role,
    caller: Pubkey,
    successor: Pubkey,
)
    requires
        change_role_spec(proxy, role, caller, successor) is Ok,
    ensures
        holds(change_role_spec(proxy, role, caller, successor)->Ok_0, role, successor),
        caller != successor ==> !holds(
            change_role_spec(proxy, role, caller, successor)->Ok_0,
            role,
            caller,
        ),
        forall|other: Role|
            other != role ==> holder(
                change_role_spec(proxy, role, caller, successor)->Ok_0,
                other,
            ) == holder(proxy, other),
{
}

/// `key` is the identity of 32 zero bytes, which stands in every role until
/// the proxy is initialized.
pub open spec fn is_blank(key: Pubkey) -> bool {
    key@ == Seq::new(32, |i: int| 0u8)
}

impl ProxySettings {
    /// The settings before the proxy is initialized: not initialized, no
    /// emergency, and the blank identity in each of the three roles, so that
    /// nobody holds a role.
    pub fn new() -> (proxy: ProxySettings)
        ensures
            !proxy.is_initialized,
            !proxy.emergency,
            is_blank(proxy.guardian),
            is_blank(proxy.manager),
            is_blank(proxy.withdrawal_manager),
            forall|role: Role, caller: Pubkey| !holds(proxy, role, caller),
    {
        let nobody = Pubkey([0u8; 32]);
        assert(nobody@ =~= Seq::new(32, |i: int| 0u8));
        ProxySettings {
            is_initialized: false,
            emergency: false,
            guardian: nobody,
            manager: nobody,
            withdrawal_manager: nobody,
        }
    }

    /// Whether the roles have been set.
    pub fn is_initialized(&self) -> (yes: bool)
        ensures
            yes == self.is_initialized,
    {
        self.is_initialized
    }

    /// Initializes the proxy with the holders of the three roles. Refused
    /// with `AlreadyInitialized` where that has been done; else the roles are
    /// set and the emergency is off.
    pub fn initialize(&mut self, guardian: Pubkey, manager: Pubkey, withdrawal_manager: Pubkey) -> (outcome:
        Result<(), RoundLoaderError>)
        ensures
            old(self).is_initialized ==> outcome == Err::<(), RoundLoaderError>(
                RoundLoaderError::AlreadyInitialized,
            ) && *final(self) == *old(self),
            !old(self).is_initialized ==> outcome is Ok && *final(self) == (ProxySettings {
                is_initialized: true,
                emergency: false,
                guardian,
                manager,
                withdrawal_manager,
            }),
    {
        if self.is_initialized {
            return Err(RoundLoaderError::AlreadyInitialized);
        }
        self.is_initialized = true;
        self.emergency = false;
        self.guardian = guardian;
        self.manager = manager;
        self.withdrawal_manager = withdrawal_manager;
        Ok(())
    }

    /// Whether `caller` holds `role`.
    pub fn has_role(&self, role: Role, caller: &Pubkey) -> (yes: bool)
        ensures
            yes == holds(*self, role, *caller),
    {
        if !self.is_initialized {
            return false;
        }
        match role {
            Role::Guardian => self.guardian == *caller,
            Role::Manager => self.manager == *caller,
            Role::WithdrawalManager => self.withdrawal_manager == *caller,
        }
    }

    /// Hands `role` on to `successor`, as `change_role_spec` says.
    fn change_role(&mut self, role: Role, caller: &Pubkey, successor: Pubkey) -> (outcome: Result<
        (),
        RoundLoaderError,
    >)
        ensures
            match change_role_spec(*old(self), role, *caller, successor) {
                Ok(next) => outcome is Ok && *final(self) == next,
                Err(e) => outcome == Err::<(), RoundLoaderError>(e) && *final(self) == *old(self),
            },
    {
        if !self.has_role(role, caller) {
            return Err(RoundLoaderError::Unauthorized);
        }
        match role {
            Role::Guardian => {
                self.guardian = successor;
            },
            Role::Manager => {
                self.manager = successor;
            },
            Role::WithdrawalManager => {
                self.withdrawal_manager = successor;
            },
        }
        Ok(())
    }

    /// The guardian names a new guardian. `Unauthorized` for any other caller.
    pub fn change_guardian(&mut self, caller: &Pubkey, new_guardian: Pubkey) -> (outcome: Result<
        (),
        RoundLoaderError,
    >)
        ensures
            match change_role_spec(*old(self), Role::Guardian, *caller, new_guardian) {
                Ok(next) => outcome is Ok && *final(self) == next,
                Err(e) => outcome == Err::<(), RoundLoaderError>(e) && *final(self) == *old(self),
            },
    {
        self.change_role(Role::Guardian, caller, new_guardian)
    }

    /// The manager names a new manager. `Unauthorized` for any other caller.
    pub fn change_manager(&mut self, caller: &Pubkey, new_manager: Pubkey) -> (outcome: Result<
        (),
        RoundLoaderError,
    >)
        ensures
            match change_role_spec(*old(self), Role::Manager, *caller, new_manager) {
                Ok(next) => outcome is Ok && *final(self) == next,
                Err(e) => outcome == Err::<(), RoundLoaderError>(e) && *final(self) == *old(self),
            },
    {
        self.change_role(Role::Manager, caller, new_manager)
    }

    /// The withdrawal manager names a new withdrawal manager. `Unauthorized`
    /// for any other caller.
    pub fn change_withdrawal_manager(&mut self, caller: &Pubkey, new_withdrawal_manager: Pubkey) -> (outcome:
        Result<(), RoundLoaderError>)
        ensures
            match change_role_spec(
                *old(self),
                Role::WithdrawalManager,
                *caller,
                new_withdrawal_manager,
            ) {
                Ok(next) => outcome is Ok && *final(self) == next,
                Err(e) => outcome == Err::<(), RoundLoaderError>(e) && *final(self) == *old(self),
            },
    {
        self.change_role(Role::WithdrawalManager, caller, new_withdrawal_manager)
    }

    /// The guardian halts all value movement. `Unauthorized` for any other caller.
    pub fn enable_emergency(&mut self, caller: &Pubkey) -> (outcome: Result<(), RoundLoaderError>)
        ensures
            match set_emergency_spec(*old(self), *caller, true) {
                Ok(next) => outcome is Ok && *final(self) == next,
                Err(e) => outcome == Err::<(), RoundLoaderError>(e) && *final(self) == *old(self),
            },
    {
        if !self.has_role(Role::Guardian, caller) {
            return Err(RoundLoaderError::Unauthorized);
        }
        self.emergency = true;
        Ok(())
    }

    /// The guardian ends the halt. `Unauthorized` for any other caller.
    pub fn disable_emergency(&mut self, caller: &Pubkey) -> (outcome: Result<(), RoundLoaderError>)
        ensures
            match set_emergency_spec(*old(self), *caller, false) {
                Ok(next) => outcome is Ok && *final(self) == next,
                Err(e) => outcome == Err::<(), RoundLoaderError>(e) && *final(self) == *old(self),
            },
    {
        if !self.has_role(Role::Guardian, caller) {
            return Err(RoundLoaderError::Unauthorized);
        }
        self.emergency = false;
        Ok(())
    }
}

/// Whether value movement of the asset is halted.
pub fn emergency_active(proxy: &ProxySettings, settings: &Settings) -> (yes: bool)
    ensures
        yes == halted(*proxy, *settings),
{
    proxy.emergency || settings.emergency
}

/// Asked before every deposit and withdrawal: `EmergencyModeActive` where
/// value movement of the asset is halted.
pub fn check_emergency(proxy: &ProxySettings, settings: &Settings) -> (outcome: Result<
    (),
    RoundLoaderError,
>)
    ensures
        halted(*proxy, *settings) ==> outcome == Err::<(), RoundLoaderError>(
            RoundLoaderError::EmergencyModeActive,
        ),
        !halted(*proxy, *settings) ==> outcome is Ok,
{
    if emergency_active(proxy, settings) {
        Err(RoundLoaderError::EmergencyModeActive)
    } else {
        Ok(())
    }
}

/// The guardian halts value movement of one asset. `Unauthorized` for any
/// other caller.
pub fn enable_token_emergency(settings: &mut Settings, proxy: &ProxySettings, caller: &Pubkey) -> (outcome:
    Result<(), RoundLoaderError>)
    ensures
        match set_token_emergency_spec(*proxy, *old(settings), *caller, true) {
            Ok(next) => outcome is Ok && *final(settings) == next,
            Err(e) => outcome == Err::<(), RoundLoaderError>(e) && *final(settings) == *old(
                settings,
            ),
        },
{
    if !proxy.has_role(Role::Guardian, caller) {
        return Err(RoundLoaderError::Unauthorized);
    }
    settings.emergency = true;
    Ok(())
}

/// The guardian ends the halt of one asset. `Unauthorized` for any other caller.
pub fn disable_token_emergency(settings: &mut Settings, proxy: &ProxySettings, caller: &Pubkey) -> (outcome:
    Result<(), RoundLoaderError>)
    ensures
        match set_token_emergency_spec(*proxy, *old(settings), *caller, false) {
            Ok(next) => outcome is Ok && *final(settings) == next,
            Err(e) => outcome == Err::<(), RoundLoaderError>(e) && *final(settings) == *old(
                settings,
            ),
        },
{
    if !proxy.has_role(Role::Guardian, caller) {
        return Err(RoundLoaderError::Unauthorized);
    }
    settings.emergency = false;
    Ok(())
}

/// The manager sets the cap for one deposit. `Unauthorized` for any other caller.
pub fn change_deposit_limit(
    settings: &mut Settings,
    proxy: &ProxySettings,
    caller: &Pubkey,
    new_deposit_limit: u64,
) -> (outcome: Result<(), RoundLoaderError>)
    ensures
        match change_deposit_limit_spec(*proxy, *old(settings), *caller, new_deposit_limit) {
            Ok(next) => outcome is Ok && *final(settings) == next,
            Err(e) => outcome == Err::<(), RoundLoaderError>(e) && *final(settings) == *old(
                settings,
            ),
        },
{
    if !proxy.has_role(Role::Manager, caller) {
        return Err(RoundLoaderError::Unauthorized);
    }
    settings.deposit_limit = new_deposit_limit;
    Ok(())
}

/// The manager sets the caps for withdrawals; a cap that is `None` stays as
/// it is. `Unauthorized` for any other caller.
pub fn change_withdrawal_limits(
    settings: &mut Settings,
    proxy: &ProxySettings,
    caller: &Pubkey,
    new_withdrawal_limit: Option<u64>,
    new_withdrawal_daily_limit: Option<u64>,
) -> (outcome: Result<(), RoundLoaderError>)
    ensures
        match change_withdrawal_limits_spec(
            *proxy,
            *old(settings),
            *caller,
            new_withdrawal_limit,
            new_withdrawal_daily_limit,
        ) {
            Ok(next) => outcome is Ok && *final(settings) == next,
            Err(e) => outcome == Err::<(), RoundLoaderError>(e) && *final(settings) == *old(
                settings,
            ),
        },
{
    if !proxy.has_role(Role::Manager, caller) {
        return Err(RoundLoaderError::Unauthorized);
    }
    if let Some(limit) = new_withdrawal_limit {
        settings.withdrawal_limit = limit;
    }
    if let Some(limit) = new_withdrawal_daily_limit {
        settings.withdrawal_daily_limit = limit;
    }
    Ok(())
}

} // verus!
