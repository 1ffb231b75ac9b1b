//! The envelope protocol: the wire contract for every request/reply
//! payload.
//!
//! Every reply travelling over the bus is an [`AgentResponse`], a tagged
//! result that carries either the responder's value or a human-readable
//! error message.  A responder that accepts a request owes its caller
//! exactly one envelope, success or error; [`ResponderSession`] makes
//! that obligation explicit.

use vstd::prelude::*;

verus! {

/// A tagged reply: exactly one of the two variants is populated.  The
/// error variant carries a human-readable message, never a structured
/// code, so callers must not branch on the error text.
#[derive(Debug, Clone)]
pub enum AgentResponse<T> {
    Success(T),
    Error(String),
}

/// The envelope a responder owes for a given handler outcome: a
/// successful outcome becomes `Success` with the same value, a failed
/// one becomes `Error` with the same message.
pub open spec fn envelope_of<T>(outcome: Result<T, String>) -> AgentResponse<T> {
    match outcome {
        Ok(v) => AgentResponse::Success(v),
        Err(m) => AgentResponse::Error(m),
    }
}

/// The handler outcome a caller reads back out of an envelope.
pub open spec fn outcome_of<T>(envelope: AgentResponse<T>) -> Result<T, String> {
    match envelope {
        AgentResponse::Success(v) => Ok(v),
        AgentResponse::Error(m) => Err(m),
    }
}

/// Wraps a handler outcome in the envelope that is sent back over the
/// bus.  Both success and failure produce an envelope, so a handler
/// whose downstream dependency fails still answers its caller instead
/// of letting the call time out.
pub fn envelope_for<T>(outcome: Result<T, String>) -> (r: AgentResponse<T>)
    ensures
        r == envelope_of(outcome),
{
    match outcome {
        Ok(v) => AgentResponse::Success(v),
        Err(m) => AgentResponse::Error(m),
    }
}

impl<T> AgentResponse<T> {
    /// Unwraps a received envelope on the caller's side, propagating the
    /// `Success`/`Error` variant verbatim.
    pub fn into_result(self) -> (r: Result<T, String>)
        ensures
            r == outcome_of(self),
    {
        match self {
            AgentResponse::Success(v) => Ok(v),
            AgentResponse::Error(m) => Err(m),
        }
    }
}

/// Law: every handler outcome maps to an envelope with exactly one
/// variant populated — success outcomes to `Success`, failures to
/// `Error` — so a responder never answers with an ambiguous or empty
/// reply.
pub proof fn lemma_envelope_exactly_one_variant<T>(outcome: Result<T, String>)
    ensures
        envelope_of(outcome) is Success <==> outcome is Ok,
        envelope_of(outcome) is Error <==> outcome is Err,
{
}

/// Law: wrapping an outcome and unwrapping the envelope on the other
/// side gives the original outcome back, so the `Success`/`Error`
/// variant is propagated verbatim, never reinterpreted.
pub proof fn lemma_envelope_round_trip<T>(outcome: Result<T, String>)
    ensures
        outcome_of(envelope_of(outcome)) == outcome,
{
}

/// Tracks a responder's obligation to answer an accepted request with
/// exactly one envelope.  A session is opened when the request is
/// accepted, produces its single reply through [`Self::reply`], and can
/// only be closed once that reply exists.
pub struct ResponderSession {
    replied: bool,
}

impl ResponderSession {
    /// Whether the session's single reply has been produced.
    pub closed spec fn has_replied(&self) -> bool {
        self.replied
    }

    /// Opens the session for a freshly accepted request; no reply has
    /// been produced yet.
    pub fn accept() -> (s: Self)
        ensures
            !s.has_replied(),
    {
        ResponderSession { replied: false }
    }

    /// Produces the session's one reply from the handler outcome.  The
    /// session must not have replied before, and afterwards it has, so
    /// a second reply for the same request cannot be produced.
    pub fn reply<T>(&mut self, outcome: Result<T, String>) -> (r: AgentResponse<T>)
        requires
            !old(self).has_replied(),
        ensures
            final(self).has_replied(),
            r == envelope_of(outcome),
    {
        self.replied = true;
        envelope_for(outcome)
    }

    /// Closes the session.  It can only be closed after its reply was
    /// produced, so an accepted request is never answered with silence.
    pub fn finish(self)
        requires
            self.has_replied(),
    {
    }
}

} // verus!
