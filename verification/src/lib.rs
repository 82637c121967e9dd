//! The decision logic of the Kilogram command line: identifiers, recovery links and plans,
//! the runtime outbox, history recovery and the state transaction protocol.

pub mod account;
pub mod client;
pub mod codec;
pub mod command;
pub mod delivery;
pub mod history_recovery;
pub mod history_rewrap;
pub mod history_view;
pub mod identity;
pub mod ids;
pub mod listener;
pub mod ordered_records;
pub mod projection;
pub mod publication_conflict_ceremony;
pub mod reconciliation;
pub mod recovery_commands;
pub mod recovery_discovery;
pub mod recovery_link;
pub mod recovery_plan;
pub mod recovery_platform;
pub mod recovery_qr;
pub mod runtime;
pub mod runtime_outbox;
pub mod runtime_state;
pub mod scheduler;
pub mod sync;
pub mod text;
pub mod ticket;
pub mod time;
pub mod transaction;
pub mod vault;
pub mod worker;
