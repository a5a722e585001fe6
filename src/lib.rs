//! Client-side coordination for Lightning payment daemons: invite decoding, a
//! registry of daemons, per-daemon connections with an ordered event queue,
//! fee quoting, and the two-stage payment request model.
//!
//! Bolt11 invoices and Bolt12 offers are decoded by the `lightning-invoice`
//! and `lightning` crates (see `decode`): the library leaves bech32,
//! checksums, signatures and the offer encoding to them and verifies what it
//! does with what they read.
pub mod client;
pub mod connection;
pub mod error;
pub mod events;
pub mod invite;
pub mod decode;
pub mod payment;
pub mod status;
pub mod text;

pub use client::{DaemonWrapper, PunctureClientWrapper};
pub use connection::{
    quote_fee, EndReason, FeeSchedule, PunctureConnectionWrapper, SessionState, TransportEvent,
};
pub use error::PunctureError;
pub use events::{BalanceEvent, Event, PaymentEvent, UpdateEvent};
pub use invite::InviteWrapper;
pub use status::{parse_status, status_after, PaymentStatus, PaymentTracker};
pub use payment::{
    check_service_bounds, parse_with_amount, parse_without_amount, resolve_locally,
    resolve_payment_request, with_amount_from, without_amount_from, ResolveAction, ResolveInput,
    resolve_with_service, PaymentRequestWithAmountWrapper, PaymentRequestWithoutAmountWrapper,
    RequestKind, SendCommand, ServiceBounds, ServiceInvoice,
};
