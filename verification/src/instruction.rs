//! The requests that the token proxy takes, and the handling of those that
//! act on settings alone.

use vstd::prelude::*;
use crate::error::RoundLoaderError;
use crate::gate::{
    change_deposit_limit, change_deposit_limit_spec, change_role_spec, change_withdrawal_limits,
    change_withdrawal_limits_spec, disable_token_emergency, enable_token_emergency,
    set_emergency_spec, set_token_emergency_spec, ProxySettings, Role,
};
use crate::state::Settings;
use crate::types::{EverAddress, Pubkey, Vote};

verus! {

/// A request to the token proxy.
#[derive(Debug)]
#[allow(inconsistent_fields)]
pub enum TokenProxyInstruction {
    /// A relay votes on a withdrawal request.
    VoteForWithdrawRequest { vote: Vote },
    /// Execute a withdrawal of an asset of the other ledger.
    WithdrawMultiTokenEver,
    /// Execute a withdrawal of an asset of this ledger.
    WithdrawMultiTokenSol,
    /// Initialize the proxy with the holders of its roles.
    Initialize { guardian: Pubkey, manager: Pubkey, withdrawal_manager: Pubkey },
    /// Deposit an asset of the other ledger.
    DepositMultiTokenEver {
        deposit_seed: u128,
        recipient: EverAddress,
        amount: u64,
        sol_amount: u64,
        payload: Vec<u8>,
    },
    /// Deposit an asset of this ledger.
    DepositMultiTokenSol {
        deposit_seed: u128,
        name: String,
        symbol: String,
        recipient: EverAddress,
        amount: u64,
        sol_amount: u64,
        payload: Vec<u8>,
    },
    /// Ask for a withdrawal of an asset of the other ledger.
    WithdrawMultiTokenEverRequest {
        event_timestamp: u32,
        event_transaction_lt: u64,
        event_configuration: Pubkey,
        token: EverAddress,
        name: String,
        symbol: String,
        decimals: u8,
        recipient: Pubkey,
        amount: u128,
    },
    /// Ask for a withdrawal of an asset of this ledger.
    WithdrawMultiTokenSolRequest {
        event_timestamp: u32,
        event_transaction_lt: u64,
        event_configuration: Pubkey,
        recipient: Pubkey,
        amount: u128,
    },
    /// The guardian names a new guardian.
    ChangeGuardian { new_guardian: Pubkey },
    /// The manager names a new manager.
    ChangeManager { new_manager: Pubkey },
    /// The withdrawal manager names a new withdrawal manager.
    ChangeWithdrawalManager { new_withdrawal_manager: Pubkey },
    /// Set the cap for one deposit.
    ChangeDepositLimit { new_deposit_limit: u64 },
    /// Set the caps for withdrawals; a cap that is `None` stays.
    ChangeWithdrawalLimits {
        new_withdrawal_limit: Option<u64>,
        new_withdrawal_daily_limit: Option<u64>,
    },
    /// Halt all value movement.
    EnableEmergencyMode,
    /// End the halt of all value movement.
    DisableEmergencyMode,
    /// Halt value movement of one asset.
    EnableTokenEmergencyMode,
    /// End the halt of one asset.
    DisableTokenEmergencyMode,
    /// Sign off a withdrawal of an asset of the other ledger.
    ApproveWithdrawEver,
    /// Sign off a withdrawal of an asset of this ledger.
    ApproveWithdrawSol,
}

/// What a request does that acts on settings alone: `None` for a request
/// that needs other records; else the settings after it, or its refusal.
///
/// The requests of this kind are the initialization, the three changes of a
/// role, the changes of the caps, and the four emergency switches.
pub open spec fn settings_instruction_spec(
    proxy: ProxySettings,
    settings: Settings,
    caller: Pubkey,
    instruction: TokenProxyInstruction,
) -> Option<Result<(ProxySettings, Settings), RoundLoaderError>> {
    match instruction {
        TokenProxyInstruction::Initialize { guardian, manager, withdrawal_manager } => Some(
            if proxy.is_initialized {
                Err(RoundLoaderError::AlreadyInitialized)
            } else {
                Ok(
                    (
                        ProxySettings {
                            is_initialized: true,
                            emergency: false,
                            guardian,
                            manager,
                            withdrawal_manager,
                        },
                        settings,
                    ),
                )
            },
        ),
        TokenProxyInstruction::ChangeGuardian { new_guardian } => Some(
            with_settings(change_role_spec(proxy, Role::Guardian, caller, new_guardian), settings),
        ),
        TokenProxyInstruction::ChangeManager { new_manager } => Some(
            with_settings(change_role_spec(proxy, Role::Manager, caller, new_manager), settings),
        ),
        TokenProxyInstruction::ChangeWithdrawalManager { new_withdrawal_manager } => Some(
            with_settings(
                change_role_spec(proxy, Role::WithdrawalManager, caller, new_withdrawal_manager),
                settings,
            ),
        ),
        TokenProxyInstruction::ChangeDepositLimit { new_deposit_limit } => Some(
            with_proxy(
                proxy,
                change_deposit_limit_spec(proxy, settings, caller, new_deposit_limit),
            ),
        ),
        TokenProxyInstruction::ChangeWithdrawalLimits {
            new_withdrawal_limit,
            new_withdrawal_daily_limit,
        } => Some(
            with_proxy(
                proxy,
                change_withdrawal_limits_spec(
                    proxy,
                    settings,
                    caller,
                    new_withdrawal_limit,
                    new_withdrawal_daily_limit,
                ),
            ),
        ),
        TokenProxyInstruction::EnableEmergencyMode => Some(
            with_settings(set_emergency_spec(proxy, caller, true), settings),
        ),
        TokenProxyInstruction::DisableEmergencyMode => Some(
            with_settings(set_emergency_spec(proxy, caller, false), settings),
        ),
        TokenProxyInstruction::EnableTokenEmergencyMode => Some(
            with_proxy(proxy, set_token_emergency_spec(proxy, settings, caller, true)),
        ),
        TokenProxyInstruction::DisableTokenEmergencyMode => Some(
            with_proxy(proxy, set_token_emergency_spec(proxy, settings, caller, false)),
        ),
        _ => None,
    }
}

/// Pairs the outcome of a step on the proxy's settings with an asset's
/// settings that the step leaves alone.
pub open spec fn with_settings(
    outcome: Result<ProxySettings, RoundLoaderError>,
    settings: Settings,
) -> Result<(ProxySettings, Settings), RoundLoaderError> {
    match outcome {
        Ok(proxy) => Ok((proxy, settings)),
        Err(e) => Err(e),
    }
}

/// Pairs the outcome of a step on an asset's settings with the proxy's
/// settings that the step leaves alone.
pub open spec fn with_proxy(
    proxy: ProxySettings,
    outcome: Result<Settings, RoundLoaderError>,
) -> Result<(ProxySettings, Settings), RoundLoaderError> {
    match outcome {
        Ok(settings) => Ok((proxy, settings)),
        Err(e) => Err(e),
    }
}

/// No request that acts on settings alone touches an amount withdrawn or the
/// window, and only the guardian's switches touch an emergency flag.
pub proof fn law_settings_requests_keep_the_window(
    proxy: ProxySettings,
    settings: Settings,
    caller: Pubkey,
    instruction: TokenProxyInstruction,
)
    ensures
        settings_instruction_spec(proxy, settings, caller, instruction) matches Some(Ok(next)) ==> {
            &&& next.1.withdrawal_daily_amount == settings.withdrawal_daily_amount
            &&& next.1.withdrawal_window_start == settings.withdrawal_window_start
            &&& next.1.kind == settings.kind
            &&& next.1.admin == settings.admin
            &&& (next.0.emergency != proxy.emergency ==> (instruction is EnableEmergencyMode
                || instruction is DisableEmergencyMode || instruction is Initialize))
            &&& (next.1.emergency != settings.emergency ==> (instruction
                is EnableTokenEmergencyMode || instruction is DisableTokenEmergencyMode))
        },
{
}

/// Handles a request that acts on settings alone, as
/// `settings_instruction_spec` says. `None` for any other request. On a
/// refusal, and on `None`, nothing is changed.
pub fn process_settings_instruction(
    proxy: &mut ProxySettings,
    settings: &mut Settings,
    caller: &Pubkey,
    instruction: &TokenProxyInstruction,
) -> (outcome: Option<Result<(), RoundLoaderError>>)
    ensures
        match settings_instruction_spec(*old(proxy), *old(settings), *caller, *instruction) {
            None => outcome is None && *final(proxy) == *old(proxy) && *final(settings) == *old(
                settings,
            ),
            Some(Ok(next)) => outcome is Some && outcome->Some_0 is Ok && *final(proxy) == next.0
                && *final(settings) == next.1,
            Some(Err(e)) => outcome == Some(Err::<(), RoundLoaderError>(e)) && *final(proxy)
                == *old(proxy) && *final(settings) == *old(settings),
        },
{
    match instruction {
        TokenProxyInstruction::Initialize { guardian, manager, withdrawal_manager } => Some(
            proxy.initialize(*guardian, *manager, *withdrawal_manager),
        ),
        TokenProxyInstruction::ChangeGuardian { new_guardian } => Some(
            proxy.change_guardian(caller, *new_guardian),
        ),
        TokenProxyInstruction::ChangeManager { new_manager } => Some(
            proxy.change_manager(caller, *new_manager),
        ),
        TokenProxyInstruction::ChangeWithdrawalManager { new_withdrawal_manager } => Some(
            proxy.change_withdrawal_manager(caller, *new_withdrawal_manager),
        ),
        TokenProxyInstruction::ChangeDepositLimit { new_deposit_limit } => Some(
            change_deposit_limit(settings, proxy, caller, *new_deposit_limit),
        ),
        TokenProxyInstruction::ChangeWithdrawalLimits {
            new_withdrawal_limit,
            new_withdrawal_daily_limit,
        } => Some(
            change_withdrawal_limits(
                settings,
                proxy,
                caller,
                *new_withdrawal_limit,
                *new_withdrawal_daily_limit,
            ),
        ),
        TokenProxyInstruction::EnableEmergencyMode => Some(proxy.enable_emergency(caller)),
        TokenProxyInstruction::DisableEmergencyMode => Some(proxy.disable_emergency(caller)),
        TokenProxyInstruction::EnableTokenEmergencyMode => Some(
            enable_token_emergency(settings, proxy, caller),
        ),
        TokenProxyInstruction::DisableTokenEmergencyMode => Some(
            disable_token_emergency(settings, proxy, caller),
        ),
        _ => None,
    }
}

} // verus!
