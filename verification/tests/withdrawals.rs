use bridge_core::error::RoundLoaderError;
use bridge_core::gate::ProxySettings;
use bridge_core::voting::Ballot;
use bridge_core::registry::RoundRegistry;
use bridge_core::round::RelaySet;
use bridge_core::state::{
    DepositTokenEventWithLen, DepositTokenMetaWithLen, Settings, TokenKind,
    WithdrawalTokenEventWithLen, WithdrawalTokenMetaWithLen, WithdrawalTokenStatus,
};
use bridge_core::types::{EverAddress, MsgAddrStd, Pubkey, Vote};
use bridge_core::withdrawal::WithdrawalStep::{
    Approve, AwaitApproval, Cancel, QuorumReached, Release,
};
use bridge_core::withdrawal::{create_withdrawal_request, deposit, ReleaseAction, WithdrawalToken};
use bridge_core::state::WithdrawalTokenStatus::{
    Cancelled, New, Pending, Processed, WaitingForApprove, WaitingForRelease,
};

fn pk(n: u8) -> Pubkey {
    Pubkey::new_from_array([n; 32])
}

fn ever(n: u8) -> EverAddress {
    EverAddress::AddrStd(MsgAddrStd { workchain_id: 0, address: [n; 32] })
}

const GUARDIAN: u8 = 1;
const MANAGER: u8 = 2;
const WITHDRAWAL_MANAGER: u8 = 3;
const ADMIN: u8 = 4;
const RECIPIENT: u8 = 30;

fn proxy() -> ProxySettings {
    let mut proxy = ProxySettings::new();
    proxy
        .initialize(pk(GUARDIAN), pk(MANAGER), pk(WITHDRAWAL_MANAGER))
        .unwrap();
    proxy
}

fn wrapped(withdrawal_limit: u64, daily_limit: u64) -> Settings {
    Settings::new(
        TokenKind::Ever { mint: pk(20) },
        pk(ADMIN),
        1000,
        withdrawal_limit,
        daily_limit,
        0,
    )
}

fn native(withdrawal_limit: u64, daily_limit: u64) -> Settings {
    Settings::new(
        TokenKind::Solana { mint: pk(20), vault: pk(21) },
        pk(ADMIN),
        1000,
        withdrawal_limit,
        daily_limit,
        0,
    )
}

fn relays() -> RoundRegistry {
    let mut registry = RoundRegistry::new();
    registry
        .initialize(0, 1000, RelaySet::new(vec![pk(11), pk(12), pk(13)]).unwrap())
        .unwrap();
    registry
}

fn request(registry: &RoundRegistry, amount: u64) -> WithdrawalToken {
    let event =
        WithdrawalTokenEventWithLen::new(ever(5), amount, pk(RECIPIENT), String::from("USDT"))
            .unwrap();
    create_withdrawal_request(registry, pk(40), event, 0).unwrap()
}

fn confirmed(registry: &RoundRegistry, amount: u64) -> WithdrawalToken {
    let mut w = request(registry, amount);
    for relay in [pk(11), pk(12), pk(13)] {
        w.vote(registry, &relay, Vote::Confirm, 10).unwrap();
    }
    w
}

fn released(registry: &RoundRegistry, global: &ProxySettings, asset: &Settings, amount: u64, now: i64) -> WithdrawalToken {
    let mut w = confirmed(registry, amount);
    w.await_approval().unwrap();
    w.approve(global, asset, &pk(WITHDRAWAL_MANAGER), now).unwrap();
    w
}

#[test]
fn new_request_waits_for_votes() {
    let registry = relays();
    let w = request(&registry, 70);
    assert!(w.is_initialized());
    assert_eq!(w.status(), WithdrawalTokenStatus::New);
    assert_eq!(w.amount(), 70);
    assert_eq!(w.ballot().round_number(), 0);
    assert_eq!(w.ballot().required_votes(), 3);
    assert_eq!(w.ballot().signers(), &vec![Vote::NotVoted; 3]);
    assert_eq!(w.meta.data.author, pk(40));
    assert_eq!(w.meta.data.bounty, 0);
    assert_eq!(w.meta.len, 41);
    assert_eq!(w.event.len, 82);
    assert_eq!(w.event.data.recipient_address, pk(RECIPIENT));
}

#[test]
fn request_without_a_round_is_refused() {
    let registry = RoundRegistry::new();
    let event =
        WithdrawalTokenEventWithLen::new(ever(5), 1, pk(RECIPIENT), String::from("USDT")).unwrap();
    assert!(matches!(
        create_withdrawal_request(&registry, pk(40), event, 0),
        Err(RoundLoaderError::InvalidRelayRound)
    ));
}

#[test]
fn quorum_makes_a_request_pending() {
    let registry = relays();
    let mut w = request(&registry, 70);
    w.vote(&registry, &pk(11), Vote::Confirm, 10).unwrap();
    w.vote(&registry, &pk(12), Vote::Confirm, 10).unwrap();
    assert_eq!(w.status(), WithdrawalTokenStatus::New);
    assert_eq!(
        w.vote(&registry, &pk(12), Vote::Confirm, 10),
        Err(RoundLoaderError::RelayAlreadyVoted)
    );
    assert_eq!(
        w.vote(&registry, &pk(99), Vote::Confirm, 10),
        Err(RoundLoaderError::InvalidRelay)
    );
    assert_eq!(
        w.vote(&registry, &pk(13), Vote::Confirm, 1001),
        Err(RoundLoaderError::RelayRoundExpired)
    );
    assert_eq!(w.status(), WithdrawalTokenStatus::New);
    w.vote(&registry, &pk(13), Vote::Confirm, 10).unwrap();
    assert_eq!(w.status(), WithdrawalTokenStatus::Pending);
    assert!(w.ballot().is_executed());
}

#[test]
fn request_runs_through_every_state() {
    let registry = relays();
    let global = proxy();
    let mut asset = wrapped(100, 150);
    let mut w = confirmed(&registry, 70);
    assert_eq!(w.status(), WithdrawalTokenStatus::Pending);
    assert_eq!(w.await_approval(), Ok(()));
    assert_eq!(w.status(), WithdrawalTokenStatus::WaitingForApprove);
    assert_eq!(
        w.approve(&global, &asset, &pk(WITHDRAWAL_MANAGER), 20),
        Ok(())
    );
    assert_eq!(w.status(), WithdrawalTokenStatus::WaitingForRelease);
    assert_eq!(asset.withdrawal_daily_amount, 0);
    let action = w.execute(&global, &mut asset, 30).unwrap();
    assert!(matches!(
        action,
        ReleaseAction::Mint { mint, recipient, amount: 70 } if mint == pk(20) && recipient == pk(RECIPIENT)
    ));
    assert_eq!(w.status(), WithdrawalTokenStatus::Processed);
    assert_eq!(asset.withdrawal_daily_amount, 70);
}

#[test]
fn native_asset_is_paid_out_of_its_vault() {
    let registry = relays();
    let global = proxy();
    let mut asset = native(100, 150);
    let mut w = released(&registry, &global, &asset, 5, 20);
    let action = w.execute(&global, &mut asset, 30).unwrap();
    assert!(matches!(
        action,
        ReleaseAction::Transfer { vault, recipient, amount: 5 } if vault == pk(21) && recipient == pk(RECIPIENT)
    ));
}

#[test]
fn withdrawal_is_released_once() {
    let registry = relays();
    let global = proxy();
    let mut asset = wrapped(100, 150);
    let mut w = released(&registry, &global, &asset, 70, 20);
    assert!(w.execute(&global, &mut asset, 30).is_ok());
    assert!(matches!(
        w.execute(&global, &mut asset, 31),
        Err(RoundLoaderError::AlreadyExecuted)
    ));
    assert_eq!(asset.withdrawal_daily_amount, 70);
    assert_eq!(
        w.approve(&global, &asset, &pk(WITHDRAWAL_MANAGER), 32),
        Err(RoundLoaderError::AlreadyExecuted)
    );
    assert_eq!(w.await_approval(), Err(RoundLoaderError::AlreadyExecuted));
}

#[test]
fn execution_needs_the_sign_off() {
    let registry = relays();
    let global = proxy();
    let mut asset = wrapped(100, 150);
    let mut fresh = request(&registry, 70);
    assert!(matches!(
        fresh.execute(&global, &mut asset, 30),
        Err(RoundLoaderError::IncompleteProposal)
    ));
    let mut pending = confirmed(&registry, 70);
    assert!(matches!(
        pending.execute(&global, &mut asset, 30),
        Err(RoundLoaderError::IncompleteProposal)
    ));
    pending.await_approval().unwrap();
    assert!(matches!(
        pending.execute(&global, &mut asset, 30),
        Err(RoundLoaderError::IncompleteProposal)
    ));
    assert_eq!(asset.withdrawal_daily_amount, 0);
    assert_eq!(pending.status(), WithdrawalTokenStatus::WaitingForApprove);
}

#[test]
fn sign_off_is_for_the_withdrawal_manager_and_in_its_turn() {
    let registry = relays();
    let global = proxy();
    let asset = wrapped(100, 150);
    let mut w = confirmed(&registry, 70);
    assert_eq!(
        w.approve(&global, &asset, &pk(WITHDRAWAL_MANAGER), 20),
        Err(RoundLoaderError::IncompleteProposal)
    );
    w.await_approval().unwrap();
    assert_eq!(
        w.approve(&global, &asset, &pk(MANAGER), 20),
        Err(RoundLoaderError::Unauthorized)
    );
    assert_eq!(
        w.approve(&global, &asset, &pk(GUARDIAN), 20),
        Err(RoundLoaderError::Unauthorized)
    );
    assert_eq!(w.status(), WithdrawalTokenStatus::WaitingForApprove);
    assert_eq!(w.await_approval(), Err(RoundLoaderError::IncompleteProposal));
}

#[test]
fn sign_off_asks_for_the_caps() {
    let registry = relays();
    let global = proxy();
    let asset = wrapped(100, 150);
    let mut big = confirmed(&registry, 101);
    big.await_approval().unwrap();
    assert_eq!(
        big.approve(&global, &asset, &pk(WITHDRAWAL_MANAGER), 20),
        Err(RoundLoaderError::WithdrawalLimitExceeded)
    );
    assert_eq!(big.status(), WithdrawalTokenStatus::WaitingForApprove);
    let raised = wrapped(101, 150);
    assert_eq!(
        big.approve(&global, &raised, &pk(WITHDRAWAL_MANAGER), 20),
        Ok(())
    );
}

#[test]
fn two_withdrawals_within_a_day_share_the_daily_cap() {
    let registry = relays();
    let global = proxy();
    let mut asset = wrapped(100, 150);
    let mut a = released(&registry, &global, &asset, 100, 20);
    let mut b = released(&registry, &global, &asset, 51, 20);
    let mut c = released(&registry, &global, &asset, 50, 20);
    assert!(a.execute(&global, &mut asset, 30).is_ok());
    assert!(matches!(
        b.execute(&global, &mut asset, 40),
        Err(RoundLoaderError::DailyLimitExceeded)
    ));
    assert_eq!(b.status(), WithdrawalTokenStatus::WaitingForRelease);
    assert_eq!(asset.withdrawal_daily_amount, 100);
    assert!(c.execute(&global, &mut asset, 50).is_ok());
    assert_eq!(asset.withdrawal_daily_amount, 150);
    assert!(b.execute(&global, &mut asset, 86400).is_ok());
    assert_eq!(asset.withdrawal_daily_amount, 51);
    assert_eq!(asset.withdrawal_window_start, 86400);
}

#[test]
fn emergency_stops_every_execution_whatever_the_state() {
    let registry = relays();
    let mut global = proxy();
    let mut asset = wrapped(100, 150);
    let mut ready = released(&registry, &global, &asset, 70, 20);
    let mut fresh = request(&registry, 70);
    let mut pending = confirmed(&registry, 70);
    let signers_before = ready.ballot().signers().clone();

    global.enable_emergency(&pk(GUARDIAN)).unwrap();
    assert!(matches!(
        ready.execute(&global, &mut asset, 30),
        Err(RoundLoaderError::EmergencyModeActive)
    ));
    assert!(matches!(
        fresh.execute(&global, &mut asset, 30),
        Err(RoundLoaderError::EmergencyModeActive)
    ));
    assert!(matches!(
        pending.execute(&global, &mut asset, 30),
        Err(RoundLoaderError::EmergencyModeActive)
    ));
    assert_eq!(ready.status(), WithdrawalTokenStatus::WaitingForRelease);
    assert_eq!(asset.withdrawal_daily_amount, 0);

    global.disable_emergency(&pk(GUARDIAN)).unwrap();
    assert_eq!(ready.ballot().signers(), &signers_before);
    assert_eq!(fresh.ballot().signers(), &vec![Vote::NotVoted; 3]);
    assert!(ready.execute(&global, &mut asset, 30).is_ok());
    assert_eq!(ready.status(), WithdrawalTokenStatus::Processed);
}

#[test]
fn emergency_of_one_asset_stops_only_that_asset() {
    let registry = relays();
    let global = proxy();
    let mut halted = wrapped(100, 150);
    let mut running = native(100, 150);
    bridge_core::gate::enable_token_emergency(&mut halted, &global, &pk(GUARDIAN)).unwrap();
    let mut a = released(&registry, &global, &halted, 5, 20);
    let mut b = released(&registry, &global, &running, 5, 20);
    assert!(matches!(
        a.execute(&global, &mut halted, 30),
        Err(RoundLoaderError::EmergencyModeActive)
    ));
    assert!(b.execute(&global, &mut running, 30).is_ok());
}

#[test]
fn emergency_stops_deposits() {
    let mut global = proxy();
    let asset = wrapped(100, 150);
    let event = || DepositTokenEventWithLen::new(pk(60), 10, ever(61), ever(62));
    let meta = || DepositTokenMetaWithLen::new(String::from("USDT")).unwrap();
    let record = deposit(&global, &asset, event(), meta()).unwrap();
    assert!(record.is_initialized());
    assert_eq!(record.event.data.amount, 10);
    assert_eq!(record.event.data.sender_address, pk(60));
    assert_eq!(record.meta.data.token_symbol, "USDT");

    global.enable_emergency(&pk(GUARDIAN)).unwrap();
    assert!(matches!(
        deposit(&global, &asset, event(), meta()),
        Err(RoundLoaderError::EmergencyModeActive)
    ));
    let too_much = DepositTokenEventWithLen::new(pk(60), 5000, ever(61), ever(62));
    assert!(matches!(
        deposit(&global, &asset, too_much, meta()),
        Err(RoundLoaderError::EmergencyModeActive)
    ));
    global.disable_emergency(&pk(GUARDIAN)).unwrap();
    assert!(deposit(&global, &asset, event(), meta()).is_ok());
}

#[test]
fn deposit_above_the_cap_is_refused() {
    let global = proxy();
    let asset = wrapped(100, 150);
    let at_cap = DepositTokenEventWithLen::new(pk(60), 1000, ever(61), ever(62));
    let above = DepositTokenEventWithLen::new(pk(60), 1001, ever(61), ever(62));
    assert!(deposit(
        &global,
        &asset,
        at_cap,
        DepositTokenMetaWithLen::new(String::from("A")).unwrap()
    )
    .is_ok());
    assert!(matches!(
        deposit(
            &global,
            &asset,
            above,
            DepositTokenMetaWithLen::new(String::from("A")).unwrap()
        ),
        Err(RoundLoaderError::DepositLimitExceeded)
    ));
}

#[test]
fn request_is_cancelled_by_the_administrator_while_new_or_pending() {
    let registry = relays();
    let global = proxy();
    let asset = wrapped(100, 150);
    let mut fresh = request(&registry, 70);
    assert_eq!(
        fresh.cancel(&asset, &pk(GUARDIAN)),
        Err(RoundLoaderError::Unauthorized)
    );
    assert_eq!(fresh.cancel(&asset, &pk(ADMIN)), Ok(()));
    assert_eq!(fresh.status(), WithdrawalTokenStatus::Cancelled);
    assert_eq!(
        fresh.cancel(&asset, &pk(ADMIN)),
        Err(RoundLoaderError::IncompleteProposal)
    );

    let mut pending = confirmed(&registry, 70);
    assert_eq!(pending.cancel(&asset, &pk(ADMIN)), Ok(()));
    assert_eq!(pending.status(), WithdrawalTokenStatus::Cancelled);
    assert_eq!(
        pending.await_approval(),
        Err(RoundLoaderError::IncompleteProposal)
    );

    let mut waiting = confirmed(&registry, 70);
    waiting.await_approval().unwrap();
    assert_eq!(
        waiting.cancel(&asset, &pk(ADMIN)),
        Err(RoundLoaderError::IncompleteProposal)
    );
    let mut ready = released(&registry, &global, &asset, 70, 20);
    assert_eq!(
        ready.cancel(&asset, &pk(ADMIN)),
        Err(RoundLoaderError::IncompleteProposal)
    );
}

#[test]
fn cancelled_request_stays_cancelled_when_the_quorum_comes() {
    let registry = relays();
    let asset = wrapped(100, 150);
    let mut w = request(&registry, 70);
    w.cancel(&asset, &pk(ADMIN)).unwrap();
    for relay in [pk(11), pk(12), pk(13)] {
        w.vote(&registry, &relay, Vote::Confirm, 10).unwrap();
    }
    assert!(w.ballot().is_executed());
    assert_eq!(w.status(), WithdrawalTokenStatus::Cancelled);
}

#[test]
fn state_machine_table() {
    let incomplete = Err(RoundLoaderError::IncompleteProposal);
    let executed = Err(RoundLoaderError::AlreadyExecuted);
    assert_eq!(New.advance(QuorumReached), Ok(Pending));
    assert_eq!(New.advance(AwaitApproval), incomplete);
    assert_eq!(New.advance(Approve), incomplete);
    assert_eq!(New.advance(Release), incomplete);
    assert_eq!(New.advance(Cancel), Ok(Cancelled));
    assert_eq!(Pending.advance(QuorumReached), incomplete);
    assert_eq!(Pending.advance(AwaitApproval), Ok(WaitingForApprove));
    assert_eq!(Pending.advance(Approve), incomplete);
    assert_eq!(Pending.advance(Release), incomplete);
    assert_eq!(Pending.advance(Cancel), Ok(Cancelled));
    assert_eq!(WaitingForApprove.advance(QuorumReached), incomplete);
    assert_eq!(WaitingForApprove.advance(AwaitApproval), incomplete);
    assert_eq!(WaitingForApprove.advance(Approve), Ok(WaitingForRelease));
    assert_eq!(WaitingForApprove.advance(Release), incomplete);
    assert_eq!(WaitingForApprove.advance(Cancel), incomplete);
    assert_eq!(WaitingForRelease.advance(QuorumReached), incomplete);
    assert_eq!(WaitingForRelease.advance(AwaitApproval), incomplete);
    assert_eq!(WaitingForRelease.advance(Approve), incomplete);
    assert_eq!(WaitingForRelease.advance(Release), Ok(Processed));
    assert_eq!(WaitingForRelease.advance(Cancel), incomplete);
    for step in [QuorumReached, AwaitApproval, Approve, Release, Cancel] {
        assert_eq!(Processed.advance(step), executed);
        assert_eq!(Cancelled.advance(step), incomplete);
    }
    assert!(Processed.is_final());
    assert!(Cancelled.is_final());
    assert!(!New.is_final());
    assert!(!Pending.is_final());
    assert!(!WaitingForApprove.is_final());
    assert!(!WaitingForRelease.is_final());
}

#[test]
fn stored_request_is_put_together_again() {
    let registry = relays();
    let ballot = Ballot::from_votes(0, 3, vec![Vote::Confirm, Vote::Confirm, Vote::NotVoted]).unwrap();
    let event =
        WithdrawalTokenEventWithLen::new(ever(5), 9, pk(RECIPIENT), String::from("USDT")).unwrap();
    let meta = WithdrawalTokenMetaWithLen::new(pk(40), WithdrawalTokenStatus::New, 3);
    let mut w = WithdrawalToken::from_parts(true, ballot, event, meta);
    assert!(w.is_initialized());
    assert_eq!(w.amount(), 9);
    assert_eq!(w.status(), WithdrawalTokenStatus::New);
    assert_eq!(w.meta.data.bounty, 3);
    assert_eq!(w.ballot().confirmations(), 2);
    assert_eq!(w.vote(&registry, &pk(13), Vote::Confirm, 10), Ok(()));
    assert_eq!(w.status(), WithdrawalTokenStatus::Pending);
}

#[test]
fn stored_request_without_quorum_is_neither_approved_nor_released() {
    let global = proxy();
    let mut asset = wrapped(100, 150);
    let slots = vec![Vote::Confirm, Vote::Confirm, Vote::NotVoted];

    let awaiting = WithdrawalTokenMetaWithLen::new(pk(40), WithdrawalTokenStatus::WaitingForApprove, 0);
    let event =
        WithdrawalTokenEventWithLen::new(ever(5), 9, pk(RECIPIENT), String::from("USDT")).unwrap();
    let mut unapproved = WithdrawalToken::from_parts(
        true,
        Ballot::from_votes(0, 3, slots.clone()).unwrap(),
        event,
        awaiting,
    );
    assert_eq!(
        unapproved.approve(&global, &asset, &pk(WITHDRAWAL_MANAGER), 20),
        Err(RoundLoaderError::IncompleteProposal)
    );
    assert_eq!(unapproved.status(), WithdrawalTokenStatus::WaitingForApprove);

    let ready = WithdrawalTokenMetaWithLen::new(pk(40), WithdrawalTokenStatus::WaitingForRelease, 0);
    let event =
        WithdrawalTokenEventWithLen::new(ever(5), 9, pk(RECIPIENT), String::from("USDT")).unwrap();
    let mut unreleased =
        WithdrawalToken::from_parts(true, Ballot::from_votes(0, 3, slots).unwrap(), event, ready);
    assert!(matches!(
        unreleased.execute(&global, &mut asset, 30),
        Err(RoundLoaderError::IncompleteProposal)
    ));
    assert_eq!(unreleased.status(), WithdrawalTokenStatus::WaitingForRelease);
    assert_eq!(asset.withdrawal_daily_amount, 0);

    let full = vec![Vote::Confirm, Vote::Confirm, Vote::Confirm];
    let ready = WithdrawalTokenMetaWithLen::new(pk(40), WithdrawalTokenStatus::WaitingForRelease, 0);
    let event =
        WithdrawalTokenEventWithLen::new(ever(5), 9, pk(RECIPIENT), String::from("USDT")).unwrap();
    let mut backed =
        WithdrawalToken::from_parts(true, Ballot::from_votes(0, 3, full).unwrap(), event, ready);
    assert!(backed.execute(&global, &mut asset, 30).is_ok());
    assert_eq!(asset.withdrawal_daily_amount, 9);
}
