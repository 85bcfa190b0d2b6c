//! The procedures of the lobby, each a machine that runs in turns.
pub mod board;
pub mod check;
pub mod classify;
pub mod command;
pub mod completion;
pub mod curfew;
pub mod display;
pub mod eject;
pub mod evict;
pub mod fake;
pub mod join;
pub mod kick;
pub mod leave;
pub mod lobby;
pub mod naming;
pub mod notices;
pub mod pool;
pub mod procedure;
pub mod publication;
pub mod reaction;
pub mod readycheck;
pub mod reconcile;
pub mod recovery;
pub mod reset;
pub mod seat;
