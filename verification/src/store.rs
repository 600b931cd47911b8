//! The ledger's two tables, kept in `dashmap::DashMap`.
//!
//! Verus does not look inside a `DashMap`. What a table holds is named by
//! [`agent_entries`] and [`invoice_entries`], and each call into the map goes through
//! one of the functions below, whose contract is taken on trust from the map's source.
//! The functions that change a table take it by `&mut`, so that no other handle can
//! change it under the caller.

use vstd::prelude::*;
use dashmap::DashMap;
use crate::ledger::{AgentState, AgentStateView, Invoice, InvoiceView};

verus! {

/// `dashmap::DashMap`, declared so that it can stand in fields and signatures.
#[verifier::external_type_specification]
#[verifier::external_body]
#[verifier::reject_recursive_types(K)]
#[verifier::reject_recursive_types(V)]
#[verifier::reject_recursive_types(S)]
pub struct ExDashMap<K, V, S>(DashMap<K, V, S>);

/// The agents that a table holds, by key.
pub uninterp spec fn agent_entries(table: DashMap<String, AgentState>) -> Map<Seq<char>, AgentStateView>;

/// The invoices that a table holds, by key.
pub uninterp spec fn invoice_entries(table: DashMap<String, Invoice>) -> Map<Seq<char>, InvoiceView>;

/// A table of agents without entries.
pub open spec fn no_agents() -> Map<Seq<char>, AgentStateView> {
    Map::empty()
}

/// A table of invoices without entries.
pub open spec fn no_invoices() -> Map<Seq<char>, InvoiceView> {
    Map::empty()
}

/// `pairs` lists `entries` once: each pair is an entry, no key comes twice, and every
/// key comes.
pub open spec fn lists_agents(pairs: Seq<(String, AgentState)>, entries: Map<Seq<char>, AgentStateView>) -> bool {
    &&& forall|i: int|
        0 <= i < pairs.len() ==> entries.dom().contains((#[trigger] pairs[i]).0@) && entries[pairs[i].0@]
            == pairs[i].1@
    &&& forall|i: int, j: int|
        0 <= i < j < pairs.len() ==> (#[trigger] pairs[i]).0@ != (#[trigger] pairs[j]).0@
    &&& forall|k: Seq<char>|
        entries.dom().contains(k) ==> exists|i: int| 0 <= i < pairs.len() && (#[trigger] pairs[i]).0@ == k
}

/// `DashMap::new`: a map with no entries.
#[verifier::external_body]
pub(crate) fn agents_new() -> (table: DashMap<String, AgentState>)
    ensures
        agent_entries(table) == no_agents(),
{
    DashMap::new()
}

/// `DashMap::get`, with the value copied out: the entry under `key`, if there is one.
#[verifier::external_body]
pub(crate) fn agents_get(table: &DashMap<String, AgentState>, key: &str) -> (found: Option<AgentState>)
    ensures
        match found {
            Some(agent) => agent_entries(*table).dom().contains(key@) && agent@ == agent_entries(*table)[key@],
            None => !agent_entries(*table).dom().contains(key@),
        },
{
    table.get(key).map(|entry| entry.value().clone())
}

/// `DashMap::insert`: afterwards `key` maps to `value`, and the other entries are as
/// before.
#[verifier::external_body]
pub(crate) fn agents_insert(table: &mut DashMap<String, AgentState>, key: String, value: AgentState)
    ensures
        agent_entries(*final(table)) == agent_entries(*old(table)).insert(key@, value@),
{
    table.insert(key, value);
}

/// `DashMap::iter`, with each entry copied out: every entry once, in an order that
/// the map does not fix.
#[verifier::external_body]
pub(crate) fn agents_list(table: &DashMap<String, AgentState>) -> (pairs: Vec<(String, AgentState)>)
    ensures
        lists_agents(pairs@, agent_entries(*table)),
{
    table.iter().map(|entry| (entry.key().clone(), entry.value().clone())).collect()
}

/// `DashMap::new`: a map with no entries.
#[verifier::external_body]
pub(crate) fn invoices_new() -> (table: DashMap<String, Invoice>)
    ensures
        invoice_entries(table) == no_invoices(),
{
    DashMap::new()
}

/// `DashMap::get`, with the value copied out: the entry under `key`, if there is one.
#[verifier::external_body]
pub(crate) fn invoices_get(table: &DashMap<String, Invoice>, key: &str) -> (found: Option<Invoice>)
    ensures
        match found {
            Some(invoice) => invoice_entries(*table).dom().contains(key@) && invoice@ == invoice_entries(
                *table,
            )[key@],
            None => !invoice_entries(*table).dom().contains(key@),
        },
{
    table.get(key).map(|entry| entry.value().clone())
}

/// `DashMap::insert`: afterwards `key` maps to `value`, and the other entries are as
/// before.
#[verifier::external_body]
pub(crate) fn invoices_insert(table: &mut DashMap<String, Invoice>, key: String, value: Invoice)
    ensures
        invoice_entries(*final(table)) == invoice_entries(*old(table)).insert(key@, value@),
{
    table.insert(key, value);
}

} // verus!
