//! A development runtime for agents that pay for HTTP resources.
//!
//! The runtime is a reverse proxy with three things of its own: a wallet for each
//! agent, a payment gate that issues invoices and settles them against the wallets,
//! and a seeded chaos engine that injects latency and failures. Every request leaves
//! a trace in a bounded log.
//!
//! This crate is the runtime without its sockets: state, rules and the request
//! pipeline, as plain values and functions. A server around it reads requests,
//! suspends, talks to the upstream and writes replies.
//!
//! * [`ledger`]: wallets, invoices and settlement.
//! * [`chaos`]: the chaos engine.
//! * [`trace`] and [`ring`]: the trace of a request, and the log of completed traces.
//! * [`message`]: requests, replies and headers.
//! * [`pipeline`]: what a request goes through, as a mathematical function.
//! * [`proxy`]: the shared state, the control plane and the pipeline in steps.
//! * [`laws`]: what holds of every step.
//! * [`dashboard`]: what a dashboard shows of all this.
//! * [`text`]: operations on text.
//!
//! Amounts are whole numbers of micro-USDC, rates whole numbers of millionths, and
//! times milliseconds since the Unix epoch.
//!
//! Other crates are called in five places, each a function whose contract is
//! believed and not proved: the clock ([`clock`]), random identifiers ([`ids`]), the
//! ChaCha8 stream ([`prng`]), the tables of the ledger ([`store`]) and the URL parser
//! ([`upstream`]). [`text`] gives a contract to two functions of the standard
//! library.

pub mod chaos;
pub mod clock;
pub mod dashboard;
pub mod ids;
pub mod laws;
pub mod ledger;
pub mod message;
pub mod pipeline;
pub mod prng;
pub mod proxy;
pub mod ring;
pub mod store;
pub mod text;
pub mod trace;
pub mod upstream;
