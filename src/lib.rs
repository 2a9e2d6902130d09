//! A safe conversation channel between an authentication module and the
//! application that hosts it.
//!
//! A module sends one message at a time (a prompt or a notice) through a
//! callback that the application supplies, and gets back either the user's
//! response text, no response, or the status code that the application
//! reported. Everything here works on plain values: the application's side
//! of the boundary turns its raw wire structures into [`Message`] and
//! [`Reply`] values and back.

pub mod constants;
pub mod message;
pub mod conv;

pub use constants::{ItemType, MessageStyle, ResultCode, PAM_SUCCESS};
pub use message::{Message, Reply, SendError};
pub use conv::Conv;
