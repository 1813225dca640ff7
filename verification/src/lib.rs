//! The core of an HTTP request forwarder.
//!
//! A caller describes a request as a [`message::HttpRequest`].
//! [`exchange::prepare`] validates the description and plans the outbound
//! request, the transport carries the plan out and reports how that ended,
//! and [`exchange::conclude`] turns the report into the
//! [`message::HttpResponse`] or into one of the failures of
//! [`error::ErrorKind`]. [`exchange::forward`] goes through all three steps
//! with a transport that is handed in as a function.
//!
//! A [`forwarder::Forwarder`] holds the settings of the transport and the
//! client built from them; [`redirect`] is the policy that client follows on
//! redirects. [`verb`], [`headers`] and [`text`] hold the parts: method
//! tokens, header mappings, and the decoding of received bytes. [`laws`]
//! states what holds of forwarding as a whole.

pub mod error;
pub mod exchange;
pub mod forwarder;
pub mod headers;
pub mod laws;
pub mod message;
pub mod redirect;
pub mod text;
pub mod verb;
