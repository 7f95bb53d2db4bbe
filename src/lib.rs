//! Outbound message dispatch: producers enqueue `SendRequest`s through any
//! channel that implements `Sender`, and a `NetworkMessageSender` drains the
//! matching `Receiver`, handing each request to a `Network`.
//!
//! A failed delivery is reported and the request dropped; only a disconnected
//! queue stops the dispatcher.

pub mod channel;
pub mod dispatch;
pub mod request;

pub use channel::{Receiver, RecvError, SendError, Sender, TryRecvError, TryRecvErrorKind};
pub use dispatch::{recv_error_message, settle, DeliveryFailure, Network, NetworkError, NetworkMessageSender, NetworkMessageSenderError};
pub use request::SendRequest;
