//! Virtual wallets, pending invoices and their settlement.
//!
//! Amounts are whole numbers of micro-USDC: one USDC is [`USDC`] units.

use vstd::prelude::*;
use vstd::string::StringExecFns;
use dashmap::DashMap;
use crate::ids::{fresh_uuid, is_alphanumeric, is_uuid_text, random_alphanumeric};
use crate::text::{decimal, digit_char, lower_ascii, lower_text, push_decimal, push_lower};
use crate::store::{
    agent_entries, agents_get, agents_insert, agents_list, agents_new, invoice_entries, invoices_get,
    invoices_insert, invoices_new, lists_agents, no_agents, no_invoices,
};

verus! {

/// The units of one USDC.
pub const USDC: u64 = 1_000_000;

/// The balance that a new agent starts with: 100 USDC.
pub const INITIAL_BALANCE: u64 = 100_000_000;

/// The cap on what a new agent may spend in total: 10 USDC.
pub const DEFAULT_BUDGET: u64 = 10_000_000;

/// The block height reported with an agent's first payment is one above this.
pub const BLOCK_HEIGHT_BASE: u64 = 10_000_000;

/// The wallet of one agent.
#[derive(Debug)]
pub struct AgentState {
    pub id: String,
    pub balance_usdc: u64,
    pub total_spend: u64,
    pub payment_count: u64,
    pub budget_limit: u64,
    pub is_active: bool,
}

/// An [`AgentState`] as a mathematical value.
pub struct AgentStateView {
    pub id: Seq<char>,
    pub balance_usdc: u64,
    pub total_spend: u64,
    pub payment_count: u64,
    pub budget_limit: u64,
    pub is_active: bool,
}

impl View for AgentState {
    type V = AgentStateView;

    open spec fn view(&self) -> AgentStateView {
        AgentStateView {
            id: self.id@,
            balance_usdc: self.balance_usdc,
            total_spend: self.total_spend,
            payment_count: self.payment_count,
            budget_limit: self.budget_limit,
            is_active: self.is_active,
        }
    }
}

impl Clone for AgentState {
    fn clone(&self) -> (r: Self)
        ensures
            r@ == self@,
    {
        AgentState {
            id: self.id.clone(),
            balance_usdc: self.balance_usdc,
            total_spend: self.total_spend,
            payment_count: self.payment_count,
            budget_limit: self.budget_limit,
            is_active: self.is_active,
        }
    }
}

/// The wallet that an agent gets on first reference.
pub open spec fn fresh_agent(id: Seq<char>) -> AgentStateView {
    AgentStateView {
        id,
        balance_usdc: INITIAL_BALANCE,
        total_spend: 0,
        payment_count: 0,
        budget_limit: DEFAULT_BUDGET,
        is_active: true,
    }
}

impl AgentState {
    /// The wallet that an agent gets on first reference.
    pub fn new(id: String) -> (a: AgentState)
        ensures
            a@ == fresh_agent(id@),
    {
        AgentState {
            id,
            balance_usdc: INITIAL_BALANCE,
            total_spend: 0,
            payment_count: 0,
            budget_limit: DEFAULT_BUDGET,
            is_active: true,
        }
    }
}

/// A pending or settled charge on one agent.
#[derive(Debug)]
pub struct Invoice {
    pub id: String,
    pub amount: u64,
    pub is_paid: bool,
    pub agent_id: String,
}

/// An [`Invoice`] as a mathematical value.
pub struct InvoiceView {
    pub id: Seq<char>,
    pub amount: u64,
    pub is_paid: bool,
    pub agent_id: Seq<char>,
}

impl View for Invoice {
    type V = InvoiceView;

    open spec fn view(&self) -> InvoiceView {
        InvoiceView { id: self.id@, amount: self.amount, is_paid: self.is_paid, agent_id: self.agent_id@ }
    }
}

impl Clone for Invoice {
    fn clone(&self) -> (r: Self)
        ensures
            r@ == self@,
    {
        Invoice {
            id: self.id.clone(),
            amount: self.amount,
            is_paid: self.is_paid,
            agent_id: self.agent_id.clone(),
        }
    }
}

/// What a successful settlement hands back.
#[derive(Debug)]
pub struct PaymentReceipt {
    pub new_balance: u64,
    pub tx_hash: String,
    pub chain_id: String,
    pub block_height: u64,
}

/// Why a settlement was refused.
#[derive(Debug, Clone, Copy, PartialEq, Eq, Structural)]
pub enum PaymentError {
    InvoiceInvalid,
    InvoiceAlreadyPaid,
    InvoiceWrongAgent,
    AgentNotFound,
    InsufficientFunds,
    BudgetExceeded,
}

/// The text of a refusal.
pub open spec fn error_text(e: PaymentError) -> Seq<char> {
    match e {
        PaymentError::InvoiceInvalid => "Invoice invalid"@,
        PaymentError::InvoiceAlreadyPaid => "Invoice already paid"@,
        PaymentError::InvoiceWrongAgent => "Invoice belongs to another agent"@,
        PaymentError::AgentNotFound => "Agent not found"@,
        PaymentError::InsufficientFunds => "Wallet Exhausted: Insufficient funds"@,
        PaymentError::BudgetExceeded => "Safety Limit: Budget cap exceeded"@,
    }
}

impl PaymentError {
    /// The text of the refusal.
    pub fn message(&self) -> (s: &'static str)
        ensures
            s@ == error_text(*self),
    {
        match self {
            PaymentError::InvoiceInvalid => "Invoice invalid",
            PaymentError::InvoiceAlreadyPaid => "Invoice already paid",
            PaymentError::InvoiceWrongAgent => "Invoice belongs to another agent",
            PaymentError::AgentNotFound => "Agent not found",
            PaymentError::InsufficientFunds => "Wallet Exhausted: Insufficient funds",
            PaymentError::BudgetExceeded => "Safety Limit: Budget cap exceeded",
        }
    }
}

/// The chain identifier reported for a network: `25` for the main network, `338`
/// for any other.
pub open spec fn chain_id_of(network: Seq<char>) -> Seq<char> {
    if network == "cronos-mainnet"@ {
        "25"@
    } else {
        "338"@
    }
}

/// A lower-case ASCII letter or a digit.
pub open spec fn is_lower_alphanumeric(c: char) -> bool {
    ('0' <= c && c <= '9') || ('a' <= c && c <= 'z')
}

/// The shape of a mock transaction hash: `0x`, then 64 lower-case letters or digits.
pub open spec fn is_tx_hash(s: Seq<char>) -> bool {
    &&& s.len() == 66
    &&& s[0] == '0'
    &&& s[1] == 'x'
    &&& forall|i: int| 2 <= i < 66 ==> is_lower_alphanumeric(#[trigger] s[i])
}

/// The units of one cent.
pub const CENT: u64 = 10_000;

/// An amount in cents, rounded to the nearest cent; half a cent goes to the even
/// cent.
pub open spec fn cents_of(amount: u64) -> nat {
    let cents = (amount / CENT) as nat;
    let rest = amount % CENT;
    if rest > 5_000 || (rest == 5_000 && cents % 2 == 1) {
        cents + 1
    } else {
        cents
    }
}

/// An amount in USDC with two decimals, rounded to the nearest cent: `99.99`.
pub open spec fn usdc_text(amount: u64) -> Seq<char> {
    let cents = cents_of(amount);
    decimal(cents / 100) + seq!['.', digit_char((cents % 100) / 10), digit_char(cents % 10)]
}

/// Appends [`usdc_text`] of `amount` to `out`.
pub fn push_usdc(out: &mut String, amount: u64)
    ensures
        final(out)@ == old(out)@ + usdc_text(amount),
{
    let floor: u64 = amount / CENT;
    let rest: u64 = amount % CENT;
    let cents: u64 = if rest > 5_000 || (rest == 5_000 && floor % 2 == 1) {
        floor + 1
    } else {
        floor
    };
    let pair: u64 = cents % 100;
    push_decimal(out, cents / 100);
    out.push('.');
    out.push((48 + (pair / 10) as u8) as char);
    out.push((48 + (pair % 10) as u8) as char);
    assert(final(out)@ =~= old(out)@ + usdc_text(amount));
}

/// The mock transaction hash made of the given characters: `0x`, then the
/// characters with their capital letters in lower case.
pub open spec fn tx_hash_of(suffix: Seq<char>) -> Seq<char> {
    "0x"@ + lower_text(suffix)
}

/// 64 characters, each an ASCII letter or digit.
pub open spec fn is_hash_suffix(suffix: Seq<char>) -> bool {
    suffix.len() == 64 && forall|i: int| 0 <= i < 64 ==> is_alphanumeric(#[trigger] suffix[i])
}

/// A hash made of 64 letters and digits has the shape of a transaction hash.
pub proof fn lemma_tx_hash_shape(suffix: Seq<char>)
    requires
        is_hash_suffix(suffix),
    ensures
        is_tx_hash(tx_hash_of(suffix)),
{
    reveal_strlit("0x");
    let hash = tx_hash_of(suffix);
    assert forall|i: int| 2 <= i < 66 implies is_lower_alphanumeric(#[trigger] hash[i]) by {
        assert(hash[i] == lower_ascii(suffix[i - 2]));
        assert(is_alphanumeric(suffix[i - 2]));
    }
}

/// The state of a ledger: its agents and its invoices, each by identifier.
pub struct LedgerView {
    pub agents: Map<Seq<char>, AgentStateView>,
    pub invoices: Map<Seq<char>, InvoiceView>,
}

impl LedgerView {
    /// Every entry stands under its own identifier, and no agent has spent more
    /// than its budget.
    pub open spec fn wf(self) -> bool {
        &&& forall|id: Seq<char>| #[trigger]
            self.agents.dom().contains(id) ==> self.agents[id].id == id && self.agents[id].total_spend
                <= self.agents[id].budget_limit
        &&& forall|id: Seq<char>| #[trigger] self.invoices.dom().contains(id) ==> self.invoices[id].id == id
    }

    /// The ledger with `agent_id` registered: unchanged where the agent is known.
    pub open spec fn registered(self, agent_id: Seq<char>) -> LedgerView {
        if self.agents.dom().contains(agent_id) {
            self
        } else {
            LedgerView { agents: self.agents.insert(agent_id, fresh_agent(agent_id)), ..self }
        }
    }

    /// The ledger with the balance of `agent_id` set to `amount`; an unknown agent is
    /// registered first.
    pub open spec fn with_balance(self, agent_id: Seq<char>, amount: u64) -> LedgerView {
        let agent = self.registered(agent_id).agents[agent_id];
        LedgerView {
            agents: self.agents.insert(agent_id, AgentStateView { balance_usdc: amount, ..agent }),
            ..self
        }
    }

    /// The ledger with a new unpaid invoice under `id`.
    pub open spec fn with_invoice(self, id: Seq<char>, agent_id: Seq<char>, amount: u64) -> LedgerView {
        LedgerView {
            invoices: self.invoices.insert(id, InvoiceView { id, amount, is_paid: false, agent_id }),
            ..self
        }
    }

    /// Why `agent_id` cannot settle `invoice_id`: the first check that fails, in the
    /// order invoice known, invoice unpaid, invoice of this agent, agent known, funds,
    /// budget. `None` where every check passes.
    pub open spec fn refusal(self, invoice_id: Seq<char>, agent_id: Seq<char>) -> Option<PaymentError> {
        if !self.invoices.dom().contains(invoice_id) {
            Some(PaymentError::InvoiceInvalid)
        } else if self.invoices[invoice_id].is_paid {
            Some(PaymentError::InvoiceAlreadyPaid)
        } else if self.invoices[invoice_id].agent_id != agent_id {
            Some(PaymentError::InvoiceWrongAgent)
        } else if !self.agents.dom().contains(agent_id) {
            Some(PaymentError::AgentNotFound)
        } else if self.agents[agent_id].balance_usdc < self.invoices[invoice_id].amount {
            Some(PaymentError::InsufficientFunds)
        } else if self.agents[agent_id].total_spend + self.invoices[invoice_id].amount
            > self.agents[agent_id].budget_limit {
            Some(PaymentError::BudgetExceeded)
        } else {
            None
        }
    }

    /// The agent after paying `amount`.
    pub open spec fn charged(agent: AgentStateView, amount: u64) -> AgentStateView {
        AgentStateView {
            balance_usdc: (agent.balance_usdc - amount) as u64,
            total_spend: (agent.total_spend + amount) as u64,
            payment_count: (agent.payment_count + 1) as u64,
            ..agent
        }
    }

    /// The ledger after `agent_id` has settled `invoice_id`.
    pub open spec fn settled(self, invoice_id: Seq<char>, agent_id: Seq<char>) -> LedgerView {
        let invoice = self.invoices[invoice_id];
        LedgerView {
            agents: self.agents.insert(agent_id, Self::charged(self.agents[agent_id], invoice.amount)),
            invoices: self.invoices.insert(invoice_id, InvoiceView { is_paid: true, ..invoice }),
        }
    }

    /// The payment counter of `agent_id` can take one more payment, and the block
    /// height that goes with it fits the machine's integers.
    pub open spec fn has_room(self, agent_id: Seq<char>) -> bool {
        self.agents.dom().contains(agent_id) ==> self.agents[agent_id].payment_count < u64::MAX
            - BLOCK_HEIGHT_BASE
    }

    /// What a payment attempt leaves behind: the settled ledger where nothing
    /// refuses it, the same ledger otherwise.
    pub open spec fn after_payment(self, invoice_id: Seq<char>, agent_id: Seq<char>) -> LedgerView {
        if self.refusal(invoice_id, agent_id) is None {
            self.settled(invoice_id, agent_id)
        } else {
            self
        }
    }
}

/// Registering an agent keeps a ledger well formed.
pub proof fn lemma_registered_wf(ledger: LedgerView, agent_id: Seq<char>)
    requires
        ledger.wf(),
    ensures
        ledger.registered(agent_id).wf(),
        ledger.registered(agent_id).agents.dom().contains(agent_id),
{
    let after = ledger.registered(agent_id);
    assert forall|id: Seq<char>| #[trigger] after.agents.dom().contains(id) implies after.agents[id].id == id
        && after.agents[id].total_spend <= after.agents[id].budget_limit by {
        if id != agent_id {
            assert(ledger.agents.dom().contains(id));
        }
    }
}

/// Filing an invoice under its identifier keeps a ledger well formed.
pub proof fn lemma_with_invoice_wf(ledger: LedgerView, id: Seq<char>, agent_id: Seq<char>, amount: u64)
    requires
        ledger.wf(),
    ensures
        ledger.with_invoice(id, agent_id, amount).wf(),
{
    let after = ledger.with_invoice(id, agent_id, amount);
    assert forall|k: Seq<char>| #[trigger] after.invoices.dom().contains(k) implies after.invoices[k].id
        == k by {
        if k != id {
            assert(ledger.invoices.dom().contains(k));
        }
    }
}

/// A payment attempt changes all or nothing, and keeps a ledger well formed. Where
/// it succeeds, the agent has spent the invoice's amount more and holds that much
/// less, which is not less than nothing, under the same budget, and the invoice is
/// paid; the agent has one payment more, as far as the counter has room for it;
/// every other wallet and invoice is as before. Where it is refused, the ledger is
/// as before.
pub proof fn lemma_payment_all_or_nothing(ledger: LedgerView, invoice_id: Seq<char>, agent_id: Seq<char>)
    requires
        ledger.wf(),
    ensures
        ledger.after_payment(invoice_id, agent_id).wf(),
        ledger.refusal(invoice_id, agent_id) is None ==> {
            let before = ledger.agents[agent_id];
            let after = ledger.after_payment(invoice_id, agent_id).agents[agent_id];
            let amount = ledger.invoices[invoice_id].amount;
            &&& ledger.has_room(agent_id) ==> after.payment_count == before.payment_count + 1
            &&& after.total_spend == before.total_spend + amount
            &&& after.total_spend <= after.budget_limit
            &&& after.balance_usdc == before.balance_usdc - amount
            &&& before.balance_usdc >= amount
            &&& after.budget_limit == before.budget_limit
            &&& after.id == before.id
            &&& after.is_active == before.is_active
            &&& ledger.after_payment(invoice_id, agent_id).invoices[invoice_id].is_paid
            &&& forall|id: Seq<char>|
                id != agent_id ==> ledger.after_payment(invoice_id, agent_id).agents.dom().contains(id)
                    == ledger.agents.dom().contains(id) && #[trigger] ledger.after_payment(
                    invoice_id,
                    agent_id,
                ).agents[id] == ledger.agents[id]
            &&& forall|id: Seq<char>|
                id != invoice_id ==> ledger.after_payment(invoice_id, agent_id).invoices.dom().contains(id)
                    == ledger.invoices.dom().contains(id) && #[trigger] ledger.after_payment(
                    invoice_id,
                    agent_id,
                ).invoices[id] == ledger.invoices[id]
        },
        ledger.refusal(invoice_id, agent_id) is Some ==> ledger.after_payment(invoice_id, agent_id) == ledger,
{
    if ledger.refusal(invoice_id, agent_id) is None {
        let after = ledger.settled(invoice_id, agent_id);
        assert(ledger.agents.dom().contains(agent_id));
        assert(ledger.invoices.dom().contains(invoice_id));
        assert forall|id: Seq<char>| #[trigger] after.agents.dom().contains(id) implies after.agents[id].id
            == id && after.agents[id].total_spend <= after.agents[id].budget_limit by {
            if id != agent_id {
                assert(ledger.agents.dom().contains(id));
            }
        }
        assert forall|k: Seq<char>| #[trigger] after.invoices.dom().contains(k) implies after.invoices[k].id
            == k by {
            if k != invoice_id {
                assert(ledger.invoices.dom().contains(k));
            }
        }
    }
}

/// Registration is idempotent: a second registration finds the agent, and changes
/// neither the ledger nor the wallet.
pub proof fn lemma_register_idempotent(ledger: LedgerView, agent_id: Seq<char>)
    ensures
        ledger.registered(agent_id).agents.dom().contains(agent_id),
        ledger.registered(agent_id).registered(agent_id) == ledger.registered(agent_id),
        !ledger.agents.dom().contains(agent_id) ==> ledger.registered(agent_id).agents[agent_id]
            == fresh_agent(agent_id),
{
}

/// An invoice is settled at most once: after a payment went through, every
/// further attempt on the same invoice, by whatever agent, is refused as already
/// paid, and changes nothing.
pub proof fn lemma_pays_at_most_once(
    ledger: LedgerView,
    invoice_id: Seq<char>,
    agent_id: Seq<char>,
    other_agent: Seq<char>,
)
    requires
        ledger.refusal(invoice_id, agent_id) is None,
    ensures
        ledger.after_payment(invoice_id, agent_id).refusal(invoice_id, other_agent) == Some(
            PaymentError::InvoiceAlreadyPaid,
        ),
        ledger.after_payment(invoice_id, agent_id).after_payment(invoice_id, other_agent)
            == ledger.after_payment(invoice_id, agent_id),
{
}

/// Setting a balance keeps a ledger well formed.
pub proof fn lemma_with_balance_wf(ledger: LedgerView, agent_id: Seq<char>, amount: u64)
    requires
        ledger.wf(),
    ensures
        ledger.with_balance(agent_id, amount).wf(),
{
    let after = ledger.with_balance(agent_id, amount);
    lemma_registered_wf(ledger, agent_id);
    assert forall|id: Seq<char>| #[trigger] after.agents.dom().contains(id) implies after.agents[id].id == id
        && after.agents[id].total_spend <= after.agents[id].budget_limit by {
        if id != agent_id {
            assert(ledger.agents.dom().contains(id));
        } else {
            assert(ledger.registered(agent_id).agents.dom().contains(id));
        }
    }
}

/// `agents` lists the wallets of `ledger` once: each is the wallet under its
/// identifier, no identifier comes twice, and every agent comes.
pub open spec fn lists_wallets(agents: Seq<AgentState>, ledger: LedgerView) -> bool {
    &&& forall|i: int|
        0 <= i < agents.len() ==> ledger.agents.dom().contains((#[trigger] agents[i])@.id)
            && ledger.agents[agents[i]@.id] == agents[i]@
    &&& forall|i: int, j: int|
        0 <= i < j < agents.len() ==> (#[trigger] agents[i])@.id != (#[trigger] agents[j])@.id
    &&& forall|id: Seq<char>|
        ledger.agents.dom().contains(id) ==> exists|i: int|
            0 <= i < agents.len() && (#[trigger] agents[i])@.id == id
}

/// The wallets of all agents and the invoices issued to them.
pub struct Ledger {
    store: DashMap<String, AgentState>,
    invoices: DashMap<String, Invoice>,
}

impl View for Ledger {
    type V = LedgerView;

    closed spec fn view(&self) -> LedgerView {
        LedgerView { agents: agent_entries(self.store), invoices: invoice_entries(self.invoices) }
    }
}

/// The mock transaction hash made of the given characters: see [`tx_hash_of`].
/// Of 64 letters and digits it has the shape of a transaction hash.
pub fn cronos_hash_from(suffix: &Vec<char>) -> (hash: String)
    ensures
        hash@ == tx_hash_of(suffix@),
        is_hash_suffix(suffix@) ==> is_tx_hash(hash@),
{
    let mut hash = String::from_str("0x");
    push_lower(&mut hash, suffix);
    proof {
        if is_hash_suffix(suffix@) {
            lemma_tx_hash_shape(suffix@);
        }
    }
    hash
}

/// A mock transaction hash: `0x` and 64 letters or digits drawn at random, the
/// letters in lower case.
pub fn generate_cronos_hash() -> (hash: String)
    ensures
        exists|suffix: Seq<char>| is_hash_suffix(suffix) && hash@ == #[trigger] tx_hash_of(suffix),
        is_tx_hash(hash@),
{
    let suffix = random_alphanumeric(64);
    cronos_hash_from(&suffix)
}

impl Default for Ledger {
    fn default() -> (l: Ledger)
        ensures
            l@.agents == no_agents(),
            l@.invoices == no_invoices(),
            l.wf(),
    {
        Ledger::new()
    }
}

impl Ledger {
    /// The ledger is well formed: see [`LedgerView::wf`].
    pub open spec fn wf(&self) -> bool {
        self@.wf()
    }

    /// A ledger without agents or invoices.
    pub fn new() -> (l: Ledger)
        ensures
            l@.agents == no_agents(),
            l@.invoices == no_invoices(),
            l.wf(),
    {
        Ledger { store: agents_new(), invoices: invoices_new() }
    }

    /// Registers `agent_id` with a fresh wallet, or finds its wallet. Returns the
    /// wallet, and whether this call registered the agent.
    pub fn register_or_get(&mut self, agent_id: &str) -> (r: (AgentState, bool))
        requires
            old(self).wf(),
        ensures
            final(self)@ == old(self)@.registered(agent_id@),
            r.1 == !old(self)@.agents.dom().contains(agent_id@),
            r.0@ == final(self)@.agents[agent_id@],
            final(self).wf(),
    {
        match agents_get(&self.store, agent_id) {
            Some(existing) => (existing, false),
            None => {
                let fresh = AgentState::new(agent_id.to_owned());
                let copy = fresh.clone();
                agents_insert(&mut self.store, agent_id.to_owned(), fresh);
                proof {
                    lemma_registered_wf(old(self)@, agent_id@);
                }
                (copy, true)
            },
        }
    }

    /// The wallet of `agent_id`, if the agent is known.
    pub fn get_state(&self, agent_id: &str) -> (r: Option<AgentState>)
        ensures
            match r {
                Some(agent) => self@.agents.dom().contains(agent_id@) && agent@ == self@.agents[agent_id@],
                None => !self@.agents.dom().contains(agent_id@),
            },
    {
        agents_get(&self.store, agent_id)
    }

    /// Files a new unpaid invoice under the given identifier.
    pub fn record_invoice(&mut self, id: String, agent_id: &str, amount: u64) -> (invoice: Invoice)
        requires
            old(self).wf(),
        ensures
            final(self)@ == old(self)@.with_invoice(id@, agent_id@, amount),
            invoice@ == final(self)@.invoices[id@],
            final(self).wf(),
    {
        let invoice = Invoice { id: id.clone(), amount, is_paid: false, agent_id: agent_id.to_owned() };
        let copy = invoice.clone();
        invoices_insert(&mut self.invoices, id, invoice);
        proof {
            lemma_with_invoice_wf(old(self)@, id@, agent_id@, amount);
        }
        copy
    }

    /// Issues an unpaid invoice of `amount` to `agent_id`, under a new random UUID.
    pub fn create_invoice(&mut self, agent_id: &str, amount: u64) -> (invoice: Invoice)
        requires
            old(self).wf(),
        ensures
            is_uuid_text(invoice@.id),
            invoice@ == (InvoiceView { id: invoice@.id, amount, is_paid: false, agent_id: agent_id@ }),
            final(self)@ == old(self)@.with_invoice(invoice@.id, agent_id@, amount),
            final(self).wf(),
    {
        let id = fresh_uuid();
        self.record_invoice(id, agent_id, amount)
    }

    /// Sets the balance of `agent_id`, registering the agent first where it is unknown.
    pub fn set_balance(&mut self, agent_id: &str, amount: u64)
        requires
            old(self).wf(),
        ensures
            final(self)@ == old(self)@.with_balance(agent_id@, amount),
            final(self).wf(),
    {
        let mut agent = match agents_get(&self.store, agent_id) {
            Some(existing) => existing,
            None => AgentState::new(agent_id.to_owned()),
        };
        agent.balance_usdc = amount;
        agents_insert(&mut self.store, agent_id.to_owned(), agent);
        proof {
            lemma_with_balance_wf(old(self)@, agent_id@, amount);
        }
    }

    /// The wallets of all agents, each once, in no particular order.
    pub fn list_all_agents(&self) -> (agents: Vec<AgentState>)
        requires
            self.wf(),
        ensures
            lists_wallets(agents@, self@),
    {
        let pairs = agents_list(&self.store);
        let mut agents: Vec<AgentState> = Vec::new();
        let mut i: usize = 0;
        while i < pairs.len()
            invariant
                i <= pairs.len(),
                agents@.len() == i,
                forall|k: int| 0 <= k < i ==> (#[trigger] agents@[k])@ == pairs@[k].1@,
            decreases pairs.len() - i,
        {
            agents.push(pairs[i].1.clone());
            i += 1;
        }
        proof {
            let entries = agent_entries(self.store);
            assert(lists_agents(pairs@, entries));
            assert forall|k: int| 0 <= k < agents@.len() implies (#[trigger] agents@[k])@.id == pairs@[k].0@ by {
                let key = pairs@[k].0@;
                assert(self@.agents.dom().contains(key));
                assert(self@.agents[key] == pairs@[k].1@);
                assert(self@.agents[key].id == key);
            }
            assert forall|id: Seq<char>| self@.agents.dom().contains(id) implies exists|i: int|
                0 <= i < agents@.len() && (#[trigger] agents@[i])@.id == id by {
                let w = choose|w: int| 0 <= w < pairs@.len() && (#[trigger] pairs@[w]).0@ == id;
                assert(agents@[w]@.id == id);
            }
        }
        agents
    }

    /// Settles `invoice_id` for `agent_id`, with `tx_hash` as the transaction's hash.
    /// The checks run in the order of [`LedgerView::refusal`]; the first that fails
    /// gives the error, and the ledger is left as it was.
    pub fn settle(&mut self, invoice_id: &str, agent_id: &str, network: &str, tx_hash: String) -> (r: Result<
        PaymentReceipt,
        PaymentError,
    >)
        requires
            old(self).wf(),
            old(self)@.has_room(agent_id@),
        ensures
            final(self).wf(),
            final(self)@ == old(self)@.after_payment(invoice_id@, agent_id@),
            match r {
                Ok(receipt) => {
                    &&& old(self)@.refusal(invoice_id@, agent_id@) is None
                    &&& receipt.new_balance == final(self)@.agents[agent_id@].balance_usdc
                    &&& receipt.tx_hash@ == tx_hash@
                    &&& receipt.chain_id@ == chain_id_of(network@)
                    &&& receipt.block_height == BLOCK_HEIGHT_BASE + final(self)@.agents[agent_id@].payment_count
                },
                Err(e) => old(self)@.refusal(invoice_id@, agent_id@) == Some(e),
            },
    {
        proof {
            lemma_payment_all_or_nothing(old(self)@, invoice_id@, agent_id@);
        }
        let mut invoice = match invoices_get(&self.invoices, invoice_id) {
            Some(found) => found,
            None => {
                return Err(PaymentError::InvoiceInvalid);
            },
        };
        if invoice.is_paid {
            return Err(PaymentError::InvoiceAlreadyPaid);
        }
        if !(*invoice.agent_id.as_str() == *agent_id) {
            return Err(PaymentError::InvoiceWrongAgent);
        }
        let mut agent = match agents_get(&self.store, agent_id) {
            Some(found) => found,
            None => {
                return Err(PaymentError::AgentNotFound);
            },
        };
        if agent.balance_usdc < invoice.amount {
            return Err(PaymentError::InsufficientFunds);
        }
        if invoice.amount > agent.budget_limit - agent.total_spend {
            return Err(PaymentError::BudgetExceeded);
        }
        agent.balance_usdc = agent.balance_usdc - invoice.amount;
        agent.total_spend = agent.total_spend + invoice.amount;
        agent.payment_count = agent.payment_count + 1;
        invoice.is_paid = true;
        let chain_id = if *network == *"cronos-mainnet" {
            "25"
        } else {
            "338"
        };
        let receipt = PaymentReceipt {
            new_balance: agent.balance_usdc,
            tx_hash,
            chain_id: chain_id.to_owned(),
            block_height: BLOCK_HEIGHT_BASE + agent.payment_count,
        };
        invoices_insert(&mut self.invoices, invoice_id.to_owned(), invoice);
        agents_insert(&mut self.store, agent_id.to_owned(), agent);
        Ok(receipt)
    }

    /// Settles `invoice_id` for `agent_id` under a new mock transaction hash. See
    /// [`Ledger::settle`].
    pub fn pay_invoice(&mut self, invoice_id: &str, agent_id: &str, network: &str) -> (r: Result<
        PaymentReceipt,
        PaymentError,
    >)
        requires
            old(self).wf(),
            old(self)@.has_room(agent_id@),
        ensures
            final(self).wf(),
            final(self)@ == old(self)@.after_payment(invoice_id@, agent_id@),
            match r {
                Ok(receipt) => {
                    &&& old(self)@.refusal(invoice_id@, agent_id@) is None
                    &&& receipt.new_balance == final(self)@.agents[agent_id@].balance_usdc
                    &&& exists|suffix: Seq<char>|
                        is_hash_suffix(suffix) && receipt.tx_hash@ == #[trigger] tx_hash_of(suffix)
                    &&& is_tx_hash(receipt.tx_hash@)
                    &&& receipt.chain_id@ == chain_id_of(network@)
                    &&& receipt.block_height == BLOCK_HEIGHT_BASE + final(self)@.agents[agent_id@].payment_count
                },
                Err(e) => old(self)@.refusal(invoice_id@, agent_id@) == Some(e),
            },
    {
        let tx_hash = generate_cronos_hash();
        self.settle(invoice_id, agent_id, network, tx_hash)
    }
}

} // verus!
