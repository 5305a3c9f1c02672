//! Request dispatch and response shaping between a transport and an
//! application callback.
//!
//! Every inbound request is described by a [`scope::Scope`], handed to the
//! application, and whatever the application produces is turned into exactly
//! one [`response::ResponsePlan`], falling back to a fixed `500` whenever a
//! stage fails. The asynchronous driving of these decisions (spawning the
//! WebSocket session, awaiting the reply channel, streaming files) is done by
//! the caller, which feeds the outcomes to [`dispatch::Dispatcher`].
use vstd::prelude::*;

pub mod dispatch;
pub mod response;
pub mod scope;
pub mod upgrade;
pub mod wire;

verus! {

} // verus!
