//! Common types for ARINC 429 communication.

pub mod bits;
pub mod text;

mod compare;
mod message;
mod parity_error;
mod speed;

pub use self::message::{label_text, message_text, Label, Message};
pub use self::parity_error::{parity_error_text, ParityError};
pub use self::speed::Speed;
