//! A local credential vault for a single operator.
//!
//! The library holds the two parts that carry the rules: the boundary that
//! protects secrets (`encryption`, `crypto`, `database`) and the session
//! state machine that drives login, the wizards, the lists and the search
//! (`state`, `transition`, `session`), with what it rests on (`input`,
//! `vault`, `listing`, `utils`, `text`), what it draws (`view`) and what its
//! actions mean for the store (`store`).
//!
//! A session takes key presses and replies and gives actions: it performs no
//! input or output itself. Whoever runs it draws `Session::screen`, hands
//! each key to `Session::on_key`, performs the action that comes back, and
//! hands in the reply where the action has one.

pub mod crypto;
pub mod database;
pub mod encryption;
pub mod input;
pub mod listing;
pub mod session;
pub mod state;
pub mod store;
pub mod text;
pub mod transition;
pub mod utils;
pub mod vault;
pub mod view;
