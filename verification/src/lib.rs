//! A thin, verified bridge between an external SIP user-agent-client core and
//! a mobile UI: call-lifecycle events coming out of the core are formatted and
//! relayed, in order, to a diagnostic sink and to a UI stream sink, and the
//! core's call result is translated into a caller-visible outcome.
//!
//! The asynchronous plumbing (the event channel, the spawned drain task, the
//! core client itself) lives outside this crate; this crate holds every
//! decision that plumbing makes: how an event is rendered, which sink receives
//! which line in which order, and when a UI-side refusal stops the relay.

pub mod event;
pub mod invoker;
pub mod relay;
