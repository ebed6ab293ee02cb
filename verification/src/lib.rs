//! Supervision of one wrapped command behind a system-tray icon.
//!
//! The crate holds the decisions of a tray runner as verified code:
//!
//! - [`message`]: the commands of the tray menu, their labels, and the
//!   decoder from a menu identifier to a command;
//! - [`spawn`]: the plan for starting the wrapped command, with the name of
//!   the log file of the run;
//! - [`notification`]: the two notifications that are shown;
//! - [`error`]: the kinds of failure and what each one leads to;
//! - [`supervisor`]: the state machine of the supervision loop, tick by
//!   tick;
//! - [`guarantees`]: what is proved of every tick and of every run.
//!
//! The crate performs no side effect. A tick returns the side effects that
//! the host program is to perform, in order, and the host reports back the
//! ones that failed.
//!
//! # What is assumed
//!
//! Three functions call outside crates, and Verus takes their contracts on
//! trust: `message::variant_not_found` and `message::parse_error_text`
//! (`strum`), and `spawn::local_time_text` (`chrono`). Everything else is
//! proved.

pub mod error;
pub mod guarantees;
pub mod message;
pub mod notification;
pub mod spawn;
pub mod supervisor;
pub mod text;
