use xdr::ledger::{
    cronos_hash_from, generate_cronos_hash, push_usdc, AgentState, Ledger, PaymentError, BLOCK_HEIGHT_BASE,
    DEFAULT_BUDGET, INITIAL_BALANCE, USDC,
};

fn usdc(amount: u64) -> String {
    let mut out = String::new();
    push_usdc(&mut out, amount);
    out
}

#[test]
fn new_agent_has_initial_wallet() {
    let agent = AgentState::new("a1".to_string());
    assert_eq!(agent.id, "a1");
    assert_eq!(agent.balance_usdc, 100 * USDC);
    assert_eq!(agent.balance_usdc, INITIAL_BALANCE);
    assert_eq!(agent.total_spend, 0);
    assert_eq!(agent.payment_count, 0);
    assert_eq!(agent.budget_limit, 10 * USDC);
    assert_eq!(agent.budget_limit, DEFAULT_BUDGET);
    assert!(agent.is_active);
}

#[test]
fn register_is_idempotent() {
    let mut ledger = Ledger::new();
    let (first, is_new) = ledger.register_or_get("a1");
    assert!(is_new);
    assert_eq!(first.balance_usdc, INITIAL_BALANCE);
    assert_eq!(first.budget_limit, DEFAULT_BUDGET);
    let (second, is_new) = ledger.register_or_get("a1");
    assert!(!is_new);
    assert_eq!(second.id, "a1");
    assert_eq!(second.balance_usdc, first.balance_usdc);
    assert_eq!(second.total_spend, 0);
    assert_eq!(second.payment_count, 0);
    assert_eq!(ledger.list_all_agents().len(), 1);
}

#[test]
fn register_keeps_a_changed_wallet() {
    let mut ledger = Ledger::new();
    ledger.set_balance("a1", 42);
    let (found, is_new) = ledger.register_or_get("a1");
    assert!(!is_new);
    assert_eq!(found.balance_usdc, 42);
}

#[test]
fn get_state_of_unknown_agent_is_none() {
    let mut ledger = Ledger::new();
    assert!(ledger.get_state("nobody").is_none());
    ledger.register_or_get("a1");
    assert!(ledger.get_state("nobody").is_none());
    assert_eq!(ledger.get_state("a1").unwrap().id, "a1");
}

#[test]
fn set_balance_creates_the_agent() {
    let mut ledger = Ledger::new();
    ledger.set_balance("a2", 7 * USDC);
    let agent = ledger.get_state("a2").unwrap();
    assert_eq!(agent.id, "a2");
    assert_eq!(agent.balance_usdc, 7 * USDC);
    assert_eq!(agent.total_spend, 0);
    assert_eq!(agent.budget_limit, DEFAULT_BUDGET);
}

#[test]
fn set_balance_keeps_spend_and_count() {
    let mut ledger = Ledger::new();
    ledger.register_or_get("a1");
    let invoice = ledger.create_invoice("a1", 10_000);
    ledger.pay_invoice(&invoice.id, "a1", "cronos-testnet").unwrap();
    ledger.set_balance("a1", 5);
    let agent = ledger.get_state("a1").unwrap();
    assert_eq!(agent.balance_usdc, 5);
    assert_eq!(agent.total_spend, 10_000);
    assert_eq!(agent.payment_count, 1);
}

#[test]
fn list_all_agents_lists_each_once() {
    let mut ledger = Ledger::new();
    assert!(ledger.list_all_agents().is_empty());
    ledger.register_or_get("a1");
    ledger.register_or_get("a2");
    ledger.register_or_get("a3");
    ledger.register_or_get("a2");
    let mut ids: Vec<String> = ledger.list_all_agents().into_iter().map(|a| a.id).collect();
    ids.sort();
    assert_eq!(ids, vec!["a1".to_string(), "a2".to_string(), "a3".to_string()]);
}

#[test]
fn create_invoice_files_an_unpaid_invoice_under_a_uuid() {
    let mut ledger = Ledger::new();
    let invoice = ledger.create_invoice("a1", 10_000);
    assert_eq!(invoice.amount, 10_000);
    assert!(!invoice.is_paid);
    assert_eq!(invoice.agent_id, "a1");
    let parsed = uuid::Uuid::parse_str(&invoice.id).unwrap();
    assert_eq!(parsed.get_version_num(), 4);
    assert_eq!(parsed.to_string(), invoice.id);
    let other = ledger.create_invoice("a1", 10_000);
    assert_ne!(other.id, invoice.id);
}

#[test]
fn record_invoice_uses_the_given_identifier() {
    let mut ledger = Ledger::new();
    ledger.register_or_get("a1");
    let invoice = ledger.record_invoice("inv-1".to_string(), "a1", 250_000);
    assert_eq!(invoice.id, "inv-1");
    let receipt = ledger.settle("inv-1", "a1", "cronos-mainnet", "0xabc".to_string()).unwrap();
    assert_eq!(receipt.tx_hash, "0xabc");
    assert_eq!(receipt.chain_id, "25");
    assert_eq!(receipt.new_balance, INITIAL_BALANCE - 250_000);
    assert_eq!(receipt.block_height, BLOCK_HEIGHT_BASE + 1);
}

#[test]
fn payment_moves_funds_once() {
    let mut ledger = Ledger::new();
    ledger.register_or_get("a1");
    let invoice = ledger.create_invoice("a1", 10_000);
    let receipt = ledger.pay_invoice(&invoice.id, "a1", "cronos-testnet").unwrap();
    assert_eq!(receipt.new_balance, 99_990_000);
    assert_eq!(receipt.chain_id, "338");
    assert_eq!(receipt.block_height, 10_000_001);
    let agent = ledger.get_state("a1").unwrap();
    assert_eq!(agent.balance_usdc, 99_990_000);
    assert_eq!(agent.total_spend, 10_000);
    assert_eq!(agent.payment_count, 1);
    let again = ledger.pay_invoice(&invoice.id, "a1", "cronos-testnet");
    assert_eq!(again.unwrap_err(), PaymentError::InvoiceAlreadyPaid);
    let agent = ledger.get_state("a1").unwrap();
    assert_eq!(agent.balance_usdc, 99_990_000);
    assert_eq!(agent.total_spend, 10_000);
    assert_eq!(agent.payment_count, 1);
}

#[test]
fn block_height_follows_the_payment_count() {
    let mut ledger = Ledger::new();
    ledger.register_or_get("a1");
    for n in 1..=3u64 {
        let invoice = ledger.create_invoice("a1", 1);
        let receipt = ledger.pay_invoice(&invoice.id, "a1", "cronos-testnet").unwrap();
        assert_eq!(receipt.block_height, 10_000_000 + n);
        assert_eq!(receipt.new_balance, INITIAL_BALANCE - n);
    }
}

#[test]
fn chain_id_is_25_on_mainnet_only() {
    let mut ledger = Ledger::new();
    ledger.register_or_get("a1");
    let first = ledger.create_invoice("a1", 1);
    let second = ledger.create_invoice("a1", 1);
    let third = ledger.create_invoice("a1", 1);
    assert_eq!(ledger.pay_invoice(&first.id, "a1", "cronos-mainnet").unwrap().chain_id, "25");
    assert_eq!(ledger.pay_invoice(&second.id, "a1", "cronos-testnet").unwrap().chain_id, "338");
    assert_eq!(ledger.pay_invoice(&third.id, "a1", "anything").unwrap().chain_id, "338");
}

#[test]
fn unknown_invoice_is_invalid() {
    let mut ledger = Ledger::new();
    ledger.register_or_get("a1");
    let r = ledger.pay_invoice("no-such-invoice", "a1", "cronos-testnet");
    assert_eq!(r.unwrap_err(), PaymentError::InvoiceInvalid);
    assert_eq!(PaymentError::InvoiceInvalid.message(), "Invoice invalid");
}

#[test]
fn invoice_of_another_agent_is_refused_and_stays_unpaid() {
    let mut ledger = Ledger::new();
    ledger.register_or_get("a3");
    ledger.register_or_get("a4");
    let invoice = ledger.create_invoice("a3", 10_000);
    let r = ledger.pay_invoice(&invoice.id, "a4", "cronos-testnet");
    let error = r.unwrap_err();
    assert_eq!(error, PaymentError::InvoiceWrongAgent);
    assert_eq!(error.message(), "Invoice belongs to another agent");
    assert_eq!(ledger.get_state("a4").unwrap().balance_usdc, INITIAL_BALANCE);
    assert!(ledger.pay_invoice(&invoice.id, "a3", "cronos-testnet").is_ok());
}

#[test]
fn unknown_agent_is_not_found() {
    let mut ledger = Ledger::new();
    let invoice = ledger.create_invoice("ghost", 10_000);
    let r = ledger.pay_invoice(&invoice.id, "ghost", "cronos-testnet");
    let error = r.unwrap_err();
    assert_eq!(error, PaymentError::AgentNotFound);
    assert_eq!(error.message(), "Agent not found");
}

#[test]
fn balance_below_amount_is_insufficient() {
    let mut ledger = Ledger::new();
    ledger.set_balance("a1", 9_999);
    let invoice = ledger.create_invoice("a1", 10_000);
    let error = ledger.pay_invoice(&invoice.id, "a1", "cronos-testnet").unwrap_err();
    assert_eq!(error, PaymentError::InsufficientFunds);
    assert_eq!(error.message(), "Wallet Exhausted: Insufficient funds");
    ledger.set_balance("a1", 10_000);
    let receipt = ledger.pay_invoice(&invoice.id, "a1", "cronos-testnet").unwrap();
    assert_eq!(receipt.new_balance, 0);
}

#[test]
fn funds_are_checked_before_the_budget() {
    let mut ledger = Ledger::new();
    ledger.set_balance("a1", 1);
    let invoice = ledger.create_invoice("a1", DEFAULT_BUDGET + 1);
    let error = ledger.pay_invoice(&invoice.id, "a1", "cronos-testnet").unwrap_err();
    assert_eq!(error, PaymentError::InsufficientFunds);
}

#[test]
fn spend_above_the_budget_is_refused() {
    let mut ledger = Ledger::new();
    ledger.register_or_get("a1");
    let whole = ledger.create_invoice("a1", DEFAULT_BUDGET);
    let over = ledger.create_invoice("a1", DEFAULT_BUDGET + 1);
    let one = ledger.create_invoice("a1", 1);
    let error = ledger.pay_invoice(&over.id, "a1", "cronos-testnet").unwrap_err();
    assert_eq!(error, PaymentError::BudgetExceeded);
    assert_eq!(error.message(), "Safety Limit: Budget cap exceeded");
    assert!(ledger.pay_invoice(&whole.id, "a1", "cronos-testnet").is_ok());
    let error = ledger.pay_invoice(&one.id, "a1", "cronos-testnet").unwrap_err();
    assert_eq!(error, PaymentError::BudgetExceeded);
    let agent = ledger.get_state("a1").unwrap();
    assert_eq!(agent.total_spend, DEFAULT_BUDGET);
    assert_eq!(agent.balance_usdc, INITIAL_BALANCE - DEFAULT_BUDGET);
    assert_eq!(agent.payment_count, 1);
}

#[test]
fn huge_amount_does_not_wrap_the_budget_check() {
    let mut ledger = Ledger::new();
    ledger.set_balance("a1", u64::MAX);
    let invoice = ledger.create_invoice("a1", u64::MAX);
    let error = ledger.pay_invoice(&invoice.id, "a1", "cronos-testnet").unwrap_err();
    assert_eq!(error, PaymentError::BudgetExceeded);
}

#[test]
fn zero_amount_counts_as_a_payment() {
    let mut ledger = Ledger::new();
    ledger.register_or_get("a1");
    let invoice = ledger.create_invoice("a1", 0);
    let receipt = ledger.pay_invoice(&invoice.id, "a1", "cronos-testnet").unwrap();
    assert_eq!(receipt.new_balance, INITIAL_BALANCE);
    assert_eq!(ledger.get_state("a1").unwrap().payment_count, 1);
}

#[test]
fn wallets_stay_within_their_budget() {
    let mut ledger = Ledger::new();
    ledger.set_balance("a1", 1_000 * USDC);
    for _ in 0..30 {
        let invoice = ledger.create_invoice("a1", 400_000);
        let _ = ledger.pay_invoice(&invoice.id, "a1", "cronos-testnet");
        let agent = ledger.get_state("a1").unwrap();
        assert!(agent.total_spend <= agent.budget_limit);
    }
    let agent = ledger.get_state("a1").unwrap();
    assert_eq!(agent.payment_count, 25);
    assert_eq!(agent.total_spend, DEFAULT_BUDGET);
    assert_eq!(agent.balance_usdc, 990 * USDC);
}

#[test]
fn transaction_hash_has_its_shape() {
    let first = generate_cronos_hash();
    assert_eq!(first.len(), 66);
    assert!(first.starts_with("0x"));
    assert!(first[2..].chars().all(|c| c.is_ascii_digit() || c.is_ascii_lowercase()));
    let second = generate_cronos_hash();
    assert_ne!(first, second);
}

#[test]
fn hash_is_made_of_the_drawn_characters() {
    let suffix: Vec<char> = "AbC019xyZ".chars().collect();
    assert_eq!(cronos_hash_from(&suffix), "0xabc019xyz");
    assert_eq!(cronos_hash_from(&Vec::new()), "0x");
    let drawn: Vec<char> = "Q7wErTy0".repeat(8).chars().collect();
    let hash = cronos_hash_from(&drawn);
    assert_eq!(hash, format!("0x{}", "q7werty0".repeat(8)));
    assert_eq!(hash.len(), 66);
}

#[test]
fn hashes_differ_from_draw_to_draw() {
    let hashes: Vec<String> = (0..20).map(|_| generate_cronos_hash()).collect();
    for (i, a) in hashes.iter().enumerate() {
        assert_ne!(a, &format!("0x{}", "0".repeat(64)));
        for b in &hashes[i + 1..] {
            assert_ne!(a, b);
        }
    }
}

#[test]
fn usdc_is_written_with_two_decimals() {
    assert_eq!(usdc(0), "0.00");
    assert_eq!(usdc(10_000), "0.01");
    assert_eq!(usdc(99_990_000), "99.99");
    assert_eq!(usdc(100_000_000), "100.00");
    assert_eq!(usdc(1_059_999), "1.06");
    assert_eq!(usdc(1_054_999), "1.05");
    assert_eq!(usdc(1_055_001), "1.06");
    assert_eq!(usdc(4_999), "0.00");
    assert_eq!(usdc(5_001), "0.01");
    assert_eq!(usdc(999_999), "1.00");
    assert_eq!(usdc(99_995_001), "100.00");
    assert_eq!(usdc(u64::MAX), "18446744073709.55");
}

#[test]
fn half_a_cent_goes_to_the_even_cent() {
    assert_eq!(usdc(5_000), "0.00");
    assert_eq!(usdc(15_000), "0.02");
    assert_eq!(usdc(125_000), "0.12");
    assert_eq!(usdc(375_000), "0.38");
    assert_eq!(format!("{:.2}", 0.125f64), "0.12");
    assert_eq!(format!("{:.2}", 0.375f64), "0.38");
    assert_eq!(usdc(995_000), "1.00");
}
