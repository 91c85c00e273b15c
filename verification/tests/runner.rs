use payment_engine::backoff::BackoffConfig;
use payment_engine::contexts::confirm_buying::ConfirmBuying;
use payment_engine::contexts::confirm_selling::ConfirmSelling;
use payment_engine::cronjob::history::Flights;
use payment_engine::cronjob::runner::{
    check_for_confirmations, dispatch, EscrowRecord, PollError, SettlementTask, Watcher,
};
use payment_engine::registry::InFlightRegistry;
use payment_engine::signature::Signature;
use payment_engine::solana::{Params, SettlementOutcome};
use payment_engine::state::{DeVoltError, DeVoltEscrow, EscrowState, Pubkey, TransactionType};
use payment_engine::token::{Mint, TokenAccount};

fn key(tag: u8) -> Pubkey {
    Pubkey { bytes: [tag; 32] }
}

fn escrow(kind: TransactionType, state: EscrowState, volts: u64, usdc: u64) -> DeVoltEscrow {
    DeVoltEscrow {
        seed: 7,
        bump: 255,
        maker: key(8),
        devolt: key(1),
        maker_usdc_account: key(4),
        devolt_usdc_account: key(5),
        devolt_volt_account: key(6),
        usdc_mint: key(2),
        volt_mint: key(3),
        volts,
        usdc,
        transaction: kind,
        state,
    }
}

fn record(id: &str, kind: TransactionType, state: EscrowState) -> EscrowRecord {
    EscrowRecord { id: id.to_string(), account: escrow(kind, state, 100, 1) }
}

fn ids(tasks: &Vec<SettlementTask>) -> Vec<String> {
    tasks.iter().map(|task| task.escrow_id.clone()).collect()
}

fn backoff() -> BackoffConfig {
    BackoffConfig { base_interval: 5, base_delay: 5, max_delay: 300 }
}

#[test]
fn pending_escrows_get_tasks_in_the_order_listed() {
    let mut registry = InFlightRegistry::new();
    let listing = vec![
        record("E1", TransactionType::Sell, EscrowState::Pending),
        record("E2", TransactionType::Buy, EscrowState::Confirmed),
        record("E3", TransactionType::Buy, EscrowState::Pending),
        record("E4", TransactionType::Sell, EscrowState::Refunded),
    ];
    let tasks = dispatch(&mut registry, &listing);
    assert_eq!(ids(&tasks), vec!["E1".to_string(), "E3".to_string()]);
    assert_eq!(tasks[0].transaction, TransactionType::Sell);
    assert_eq!(tasks[1].transaction, TransactionType::Buy);
    assert!(registry.contains("E1"));
    assert!(registry.contains("E3"));
    assert!(!registry.contains("E2"));
    assert!(!registry.contains("E4"));
}

#[test]
fn empty_listing_starts_nothing() {
    let mut registry = InFlightRegistry::new();
    assert!(registry.try_insert("E9"));
    let tasks = dispatch(&mut registry, &Vec::new());
    assert!(tasks.is_empty());
    assert!(registry.contains("E9"));
}

#[test]
fn escrow_listed_again_while_in_flight_gets_no_second_task() {
    let mut registry = InFlightRegistry::new();
    let listing = vec![record("E1", TransactionType::Sell, EscrowState::Pending)];
    assert_eq!(ids(&dispatch(&mut registry, &listing)), vec!["E1".to_string()]);
    assert!(dispatch(&mut registry, &listing).is_empty());
    assert!(dispatch(&mut registry, &listing).is_empty());
    assert!(registry.contains("E1"));
}

#[test]
fn escrow_listed_twice_in_one_poll_gets_one_task() {
    let mut registry = InFlightRegistry::new();
    let listing = vec![
        record("E1", TransactionType::Sell, EscrowState::Pending),
        record("E2", TransactionType::Buy, EscrowState::Pending),
        record("E1", TransactionType::Sell, EscrowState::Pending),
    ];
    let tasks = dispatch(&mut registry, &listing);
    assert_eq!(ids(&tasks), vec!["E1".to_string(), "E2".to_string()]);
}

#[test]
fn failed_attempt_is_retried_on_the_very_next_poll() {
    let mut watcher = Watcher::new(backoff());
    let listing = Ok(vec![record("E1", TransactionType::Buy, EscrowState::Pending)]);
    let first = watcher.on_poll(&listing);
    assert_eq!(ids(&first.tasks), vec!["E1".to_string()]);
    assert!(watcher.is_in_flight("E1"));
    let failed = SettlementOutcome::Failed("timed out".to_string());
    assert!(watcher.on_task_finished("E1", &failed));
    assert!(!watcher.is_in_flight("E1"));
    assert!(watcher.is_idle());
    let second = watcher.on_poll(&listing);
    assert_eq!(ids(&second.tasks), vec!["E1".to_string()]);
    assert_eq!(second.tasks[0].transaction, TransactionType::Buy);
}

#[test]
fn finished_task_is_released_whatever_the_outcome() {
    let signature = Signature { bytes: [3u8; 64] };
    let mut watcher = Watcher::new(backoff());
    let listing = Ok(vec![
        record("E1", TransactionType::Buy, EscrowState::Pending),
        record("E2", TransactionType::Sell, EscrowState::Pending),
        record("E3", TransactionType::Sell, EscrowState::Pending),
    ]);
    assert_eq!(watcher.on_poll(&listing).tasks.len(), 3);
    assert!(!watcher.on_task_finished("E1", &SettlementOutcome::Confirmed(signature)));
    assert!(!watcher.on_task_finished("E2", &SettlementOutcome::Refunded(signature)));
    assert!(watcher.on_task_finished("E3", &SettlementOutcome::Failed("no route".to_string())));
    assert!(watcher.is_idle());
    assert_eq!(watcher.delay(), 5);
}

#[test]
fn failed_poll_starts_nothing_and_lengthens_the_delay() {
    let mut watcher = Watcher::new(backoff());
    assert_eq!(watcher.delay(), 5);
    for (error, delay) in [
        (PollError::InvalidSigningKey, 10),
        (PollError::ProgramUnavailable, 20),
        (PollError::AccountsUnavailable, 40),
    ] {
        let cycle = watcher.on_poll(&Err(error));
        assert!(!cycle.success);
        assert!(cycle.tasks.is_empty());
        assert_eq!(cycle.next_poll_in, delay);
        assert_eq!(watcher.delay(), delay);
        assert!(watcher.is_idle());
    }
    let cycle = watcher.on_poll(&Ok(vec![record("E1", TransactionType::Buy, EscrowState::Pending)]));
    assert!(cycle.success);
    assert_eq!(cycle.next_poll_in, 5);
    assert_eq!(cycle.tasks.len(), 1);
    assert_eq!(watcher.failures(), 0);
}

#[test]
fn failed_poll_leaves_what_is_in_flight() {
    let mut watcher = Watcher::new(backoff());
    let listing = Ok(vec![record("E1", TransactionType::Buy, EscrowState::Pending)]);
    assert_eq!(watcher.on_poll(&listing).tasks.len(), 1);
    let cycle = watcher.on_poll(&Err(PollError::AccountsUnavailable));
    assert!(cycle.tasks.is_empty());
    assert!(watcher.is_in_flight("E1"));
    assert!(watcher.on_poll(&listing).tasks.is_empty());
}

#[test]
fn check_for_confirmations_reports_how_the_poll_went() {
    let mut registry = InFlightRegistry::new();
    let (failed, none) = check_for_confirmations(&Err(PollError::InvalidSigningKey), &mut registry);
    assert!(!failed);
    assert!(none.is_empty());
    assert!(registry.is_empty());
    let listing = Ok(vec![
        record("E1", TransactionType::Sell, EscrowState::Pending),
        record("E2", TransactionType::Sell, EscrowState::Confirmed),
    ]);
    let (succeeded, tasks) = check_for_confirmations(&listing, &mut registry);
    assert!(succeeded);
    assert_eq!(ids(&tasks), vec!["E1".to_string()]);
    let (again, nothing) = check_for_confirmations(&Ok(Vec::new()), &mut registry);
    assert!(again);
    assert!(nothing.is_empty());
    assert!(registry.contains("E1"));
}

#[test]
fn tasks_are_routed_by_the_kind_of_trade() {
    let buy = SettlementTask { escrow_id: "E1".to_string(), transaction: TransactionType::Buy };
    let payload = buy.payload();
    assert_eq!(payload.jsonrpc, "2.0");
    assert_eq!(payload.method, "confirm_buying");
    assert_eq!(payload.id, 1);
    match payload.params {
        Params::ConfirmBuying(named) => assert_eq!(named.escrow_public_key, "E1"),
        _ => panic!("a purchase is settled by confirm_buying"),
    }
    let sell = SettlementTask { escrow_id: "E2".to_string(), transaction: TransactionType::Sell };
    let payload = sell.payload();
    assert_eq!(payload.method, "confirm_selling");
    match payload.params {
        Params::ConfirmSelling(named) => assert_eq!(named.escrow_public_key, "E2"),
        _ => panic!("a sale is settled by confirm_selling"),
    }
}

#[test]
fn outcomes_are_told_from_what_the_ledger_reports() {
    let signature = Signature { bytes: [9u8; 64] };
    match SettlementOutcome::of_ledger(Ok(()), signature) {
        SettlementOutcome::Confirmed(carried) => assert_eq!(carried.bytes, [9u8; 64]),
        _ => panic!("a settlement that succeeded is confirmed"),
    }
    match SettlementOutcome::of_ledger(Err(DeVoltError::Refunded), signature) {
        SettlementOutcome::Refunded(carried) => assert_eq!(carried.bytes, [9u8; 64]),
        _ => panic!("a refund is an outcome of its own"),
    }
    for (error, message) in [
        (DeVoltError::InvalidState, "Invalid state"),
        (DeVoltError::InsufficientFunds, "Insufficient funds"),
        (DeVoltError::Overflow, "Operation overflowed"),
    ] {
        let outcome = SettlementOutcome::of_ledger(Err(error), signature);
        assert!(outcome.is_failed());
        match outcome {
            SettlementOutcome::Failed(reason) => assert_eq!(reason, message),
            _ => panic!("an error leaves the escrow as it was"),
        }
    }
    assert!(!SettlementOutcome::Confirmed(signature).is_failed());
    assert!(!SettlementOutcome::Refunded(signature).is_failed());
}

fn sale_accounts(operator_usdc: u64) -> ConfirmSelling {
    ConfirmSelling {
        devolt: key(1),
        usdc_mint: Mint { key: key(2), decimals: 6 },
        volt_mint: Mint { key: key(3), decimals: 6 },
        producer_usdc_account: TokenAccount { key: key(4), amount: 0 },
        devolt_usdc_account: TokenAccount { key: key(5), amount: operator_usdc },
        devolt_volt_account: TokenAccount { key: key(6), amount: 0 },
        devolt_escrow: escrow(TransactionType::Sell, EscrowState::Pending, 50_000, 500),
    }
}

fn purchase_accounts(operator_volt: u64) -> ConfirmBuying {
    ConfirmBuying {
        devolt: key(1),
        devolt_escrow: escrow(TransactionType::Buy, EscrowState::Pending, 500, 5),
        usdc_mint: Mint { key: key(2), decimals: 6 },
        volt_mint: Mint { key: key(3), decimals: 6 },
        consumer_usdc_account: TokenAccount { key: key(4), amount: 0 },
        devolt_usdc_account: TokenAccount { key: key(5), amount: 0 },
        devolt_volt_account: TokenAccount { key: key(6), amount: operator_volt },
        devolt_escrow_usdc_account: TokenAccount { key: key(9), amount: 5 },
    }
}

#[test]
fn one_working_cycle_settles_every_pending_escrow() {
    let signature = Signature { bytes: [1u8; 64] };
    let mut sale_with_funds = sale_accounts(500);
    let mut sale_without_funds = sale_accounts(100);
    let mut purchase_with_energy = purchase_accounts(500);
    let mut purchase_without_energy = purchase_accounts(0);
    let mut watcher = Watcher::new(backoff());
    let listing = Ok(vec![
        EscrowRecord { id: "S1".to_string(), account: sale_with_funds.devolt_escrow },
        EscrowRecord { id: "S2".to_string(), account: sale_without_funds.devolt_escrow },
        EscrowRecord { id: "B1".to_string(), account: purchase_with_energy.devolt_escrow },
        EscrowRecord { id: "B2".to_string(), account: purchase_without_energy.devolt_escrow },
    ]);
    let cycle = watcher.on_poll(&listing);
    assert_eq!(cycle.tasks.len(), 4);
    for task in &cycle.tasks {
        let report = match (task.escrow_id.as_str(), task.transaction) {
            ("S1", TransactionType::Sell) => sale_with_funds.confirm_selling(),
            ("S2", TransactionType::Sell) => sale_without_funds.confirm_selling(),
            ("B1", TransactionType::Buy) => purchase_with_energy.confirm_buying(),
            ("B2", TransactionType::Buy) => purchase_without_energy.confirm_buying(),
            _ => panic!("every task settles a listed escrow by its kind"),
        };
        let outcome = SettlementOutcome::of_ledger(report, signature);
        assert!(!watcher.on_task_finished(&task.escrow_id, &outcome));
    }
    assert_eq!(sale_with_funds.devolt_escrow.state, EscrowState::Confirmed);
    assert_eq!(sale_without_funds.devolt_escrow.state, EscrowState::Refunded);
    assert_eq!(purchase_with_energy.devolt_escrow.state, EscrowState::Confirmed);
    assert_eq!(purchase_without_energy.devolt_escrow.state, EscrowState::Refunded);
    assert!(watcher.is_idle());
    let relisting = Ok(vec![
        EscrowRecord { id: "S1".to_string(), account: sale_with_funds.devolt_escrow },
        EscrowRecord { id: "S2".to_string(), account: sale_without_funds.devolt_escrow },
        EscrowRecord { id: "B1".to_string(), account: purchase_with_energy.devolt_escrow },
        EscrowRecord { id: "B2".to_string(), account: purchase_without_energy.devolt_escrow },
    ]);
    assert!(watcher.on_poll(&relisting).tasks.is_empty());
}

#[test]
fn escrow_settles_once_the_client_gets_through() {
    let signature = Signature { bytes: [1u8; 64] };
    let mut accounts = sale_accounts(500);
    let mut watcher = Watcher::new(backoff());
    for _ in 0..3 {
        let listing = Ok(vec![EscrowRecord { id: "S1".to_string(), account: accounts.devolt_escrow }]);
        let cycle = watcher.on_poll(&listing);
        assert_eq!(cycle.tasks.len(), 1);
        let lost = SettlementOutcome::Failed("Failed to send request to payment engine".to_string());
        assert!(watcher.on_task_finished("S1", &lost));
        assert_eq!(accounts.devolt_escrow.state, EscrowState::Pending);
    }
    let listing = Ok(vec![EscrowRecord { id: "S1".to_string(), account: accounts.devolt_escrow }]);
    let cycle = watcher.on_poll(&listing);
    assert_eq!(cycle.tasks.len(), 1);
    let outcome = SettlementOutcome::of_ledger(accounts.confirm_selling(), signature);
    assert!(!watcher.on_task_finished("S1", &outcome));
    assert_eq!(accounts.devolt_escrow.state, EscrowState::Confirmed);
    let listing = Ok(vec![EscrowRecord { id: "S1".to_string(), account: accounts.devolt_escrow }]);
    assert!(watcher.on_poll(&listing).tasks.is_empty());
}

#[test]
fn timed_out_attempt_is_released_and_retried() {
    let mut watcher = Watcher::new(backoff());
    let listing = Ok(vec![record("E1", TransactionType::Sell, EscrowState::Pending)]);
    assert_eq!(watcher.on_poll(&listing).tasks.len(), 1);
    let outcome = payment_engine::solana::PaymentEngineService::confirm_selling(
        payment_engine::solana::Exchange::SendFailed,
    );
    assert!(outcome.is_failed());
    assert!(watcher.on_task_finished("E1", &outcome));
    assert!(!watcher.is_in_flight("E1"));
    assert_eq!(ids(&watcher.on_poll(&listing).tasks), vec!["E1".to_string()]);
}

#[test]
fn release_of_an_escrow_that_is_not_in_flight_changes_nothing() {
    let mut watcher = Watcher::new(backoff());
    let listing = Ok(vec![record("E1", TransactionType::Sell, EscrowState::Pending)]);
    assert_eq!(watcher.on_poll(&listing).tasks.len(), 1);
    assert!(watcher.on_task_finished("E2", &SettlementOutcome::Failed("lost".to_string())));
    assert!(watcher.is_in_flight("E1"));
    assert!(!watcher.is_in_flight("E2"));
    assert!(!watcher.is_idle());
}

#[test]
fn one_poll_at_a_time() {
    let mut watcher = Watcher::new(backoff());
    assert!(!watcher.is_polling());
    assert!(watcher.begin_poll());
    assert!(watcher.is_polling());
    assert!(!watcher.begin_poll());
    assert!(watcher.is_polling());
    watcher.on_poll(&Err(PollError::AccountsUnavailable));
    assert!(!watcher.is_polling());
    assert!(watcher.begin_poll());
    watcher.on_poll(&Ok(Vec::new()));
    assert!(!watcher.is_polling());
    assert_eq!(watcher.delay(), 5);
    assert_eq!(watcher.failures(), 0);
}

#[test]
fn flights_are_listed_and_finished() {
    let mut flights = Flights::new();
    assert!(flights.is_empty());
    let listing = vec![
        record("E1", TransactionType::Sell, EscrowState::Pending),
        record("E2", TransactionType::Buy, EscrowState::Pending),
        record("E3", TransactionType::Buy, EscrowState::Confirmed),
    ];
    assert_eq!(ids(&flights.list(&listing)), vec!["E1".to_string(), "E2".to_string()]);
    assert!(flights.contains("E1"));
    assert!(flights.contains("E2"));
    assert!(!flights.contains("E3"));
    assert!(flights.list(&listing).is_empty());
    assert!(flights.finish("E1"));
    assert!(!flights.finish("E1"));
    assert!(!flights.finish("E3"));
    assert!(!flights.contains("E1"));
    assert_eq!(ids(&flights.list(&listing)), vec!["E1".to_string()]);
    assert!(flights.finish("E1"));
    assert!(flights.finish("E2"));
    assert!(flights.is_empty());
}
