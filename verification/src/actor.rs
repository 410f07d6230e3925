//! Three shapes of the same actor: one whose handle and actor are built
//! apart (`alice`), one whose handle starts its actor (`no_handle`), and one
//! shaped for an actor framework that answers by return value (`actix`).
//! Each keeps the last piece of information it was given and answers a
//! message with the piece it held before (`exchange`).

pub mod actix;
pub mod alice;
pub mod exchange;
pub mod no_handle;
