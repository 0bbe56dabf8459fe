//! The lifecycle of one attested channel.
//!
//! A session owns at most one context of the transport. The caller drives
//! the transport and reports each result here; the session decides what the
//! result means, which phase follows, and whether the context has to be freed.

use crate::config::{first_overlong, ConstructionError, NativeConf};
use vstd::prelude::*;

verus! {

/// The transport's code for "no error". Every other code is a failure.
pub const NATIVE_OK: u32 = 0;

/// Where a session stands in its lifecycle.
#[derive(Clone, Copy, Debug, PartialEq, Eq, Structural)]
pub enum Phase {
    /// The configuration record is built; the transport has not been asked for a context.
    Configured,
    /// The transport created its context; the evidence callback is not registered.
    Initialized,
    /// The callback is registered; a handshake may start.
    Ready,
    /// The handshake completed and the peer's evidence was accepted.
    Established,
    /// Registration or the handshake failed; the context still exists.
    Failed,
    /// No context exists any more, or none was ever created.
    Released,
}

impl Phase {
    /// Whether a session in this phase holds a context of the transport.
    pub open spec fn owns_context(self) -> bool {
        self is Initialized || self is Ready || self is Established || self is Failed
    }
}

/// Why a handshake did not establish the channel.
#[derive(Clone, Copy, Debug, PartialEq, Eq, Structural)]
pub enum NegotiationError {
    /// The session was not waiting for a handshake.
    NotReady,
    /// The peer's evidence was rejected during the handshake; the code is the transport's.
    EvidenceRejected(u32),
    /// The transport failed the handshake; the code is the transport's.
    Handshake(u32),
}

/// Why no application data was transferred.
#[derive(Clone, Copy, Debug, PartialEq, Eq, Structural)]
pub enum TransferError {
    /// The channel is not established.
    NotEstablished,
    /// The transport failed the transfer; the code is the transport's.
    Native(u32),
    /// The transport reported more bytes than the buffer holds; the count is the transport's.
    LengthOutOfRange(usize),
}

/// What the caller reports to a session.
#[derive(Clone, Copy, Debug, PartialEq, Eq, Structural)]
pub enum Event {
    /// The transport was asked for a context and returned this code.
    Initialized(u32),
    /// The transport was asked to register the evidence callback and returned this code.
    CallbackRegistered(u32),
    /// A handshake ran: the transport's code, and whether evidence was rejected during it.
    Negotiated(u32, bool),
    /// The session was released.
    Released,
}

/// The phase that follows the report of a context's creation, and what the caller is told.
pub open spec fn init_outcome(phase: Phase, code: u32) -> (Phase, Result<(), ConstructionError>) {
    if !(phase is Configured) {
        (phase, Err(ConstructionError::OutOfSequence))
    } else if code == NATIVE_OK {
        (Phase::Initialized, Ok(()))
    } else {
        (Phase::Released, Err(ConstructionError::Init(code)))
    }
}

/// The phase that follows the report of the callback's registration, and what the caller is told.
pub open spec fn registration_outcome(phase: Phase, code: u32) -> (
    Phase,
    Result<(), ConstructionError>,
) {
    if !(phase is Initialized) {
        (phase, Err(ConstructionError::OutOfSequence))
    } else if code == NATIVE_OK {
        (Phase::Ready, Ok(()))
    } else {
        (Phase::Failed, Err(ConstructionError::CallbackRegistration(code)))
    }
}

/// The phase that follows a handshake, and what the caller is told. A
/// rejection of the peer's evidence fails the handshake whatever the
/// transport's code says.
pub open spec fn negotiation_outcome(phase: Phase, code: u32, rejected: bool) -> (
    Phase,
    Result<(), NegotiationError>,
) {
    if !(phase is Ready) {
        (phase, Err(NegotiationError::NotReady))
    } else if rejected {
        (Phase::Failed, Err(NegotiationError::EvidenceRejected(code)))
    } else if code != NATIVE_OK {
        (Phase::Failed, Err(NegotiationError::Handshake(code)))
    } else {
        (Phase::Established, Ok(()))
    }
}

/// What the caller is told of a transfer over a buffer of `limit` bytes for
/// which the transport returned `code` and a count of `len` bytes.
pub open spec fn transfer_outcome(phase: Phase, limit: usize, code: u32, len: usize) -> Result<
    usize,
    TransferError,
> {
    if !(phase is Established) {
        Err(TransferError::NotEstablished)
    } else if code != NATIVE_OK {
        Err(TransferError::Native(code))
    } else if len > limit {
        Err(TransferError::LengthOutOfRange(len))
    } else {
        Ok(len)
    }
}

/// The phase that follows one event.
pub open spec fn step(phase: Phase, event: Event) -> Phase {
    match event {
        Event::Initialized(code) => init_outcome(phase, code).0,
        Event::CallbackRegistered(code) => registration_outcome(phase, code).0,
        Event::Negotiated(code, rejected) => negotiation_outcome(phase, code, rejected).0,
        Event::Released => Phase::Released,
    }
}

/// The phase that follows a sequence of events, the first event first.
pub open spec fn run(phase: Phase, events: Seq<Event>) -> Phase
    decreases events.len(),
{
    if events.len() == 0 {
        phase
    } else {
        run(step(phase, events[0]), events.drop_first())
    }
}

/// How often the caller is told to free the context over a sequence of events.
pub open spec fn frees(phase: Phase, events: Seq<Event>) -> nat
    decreases events.len(),
{
    if events.len() == 0 {
        0
    } else {
        let here: nat = if events[0] is Released && phase.owns_context() {
            1
        } else {
            0
        };
        here + frees(step(phase, events[0]), events.drop_first())
    }
}

/// One attested channel: its configuration record and its place in the lifecycle.
///
/// The record is fixed when the session is built. The session cannot be
/// copied: the context it stands for is a unique resource.
#[derive(Debug)]
pub struct RatsTls {
    conf: NativeConf,
    phase: Phase,
}

impl RatsTls {
    /// The configuration record of the session.
    pub closed spec fn conf_of(&self) -> NativeConf {
        self.conf
    }

    /// The phase of the session.
    pub closed spec fn phase_of(&self) -> Phase {
        self.phase
    }

    /// Builds a session from its settings. The session starts in
    /// `Phase::Configured` with the record that the settings call for. A name
    /// that does not fit its field is an error, and then no session exists.
    pub fn new(
        server: bool,
        enclave_id: u64,
        tls_type: &Option<String>,
        crypto: &Option<String>,
        attester: &Option<String>,
        verifier: &Option<String>,
        mutual: bool,
    ) -> (r: Result<RatsTls, ConstructionError>)
        ensures
            match first_overlong(*tls_type, *crypto, *attester, *verifier) {
                Some(field) => r.is_err() && r.unwrap_err() == ConstructionError::NameTooLong(
                    field,
                ),
                None => r.is_ok() && r.unwrap().phase_of() == Phase::Configured
                    && r.unwrap().conf_of().describes(
                    server,
                    enclave_id,
                    *tls_type,
                    *crypto,
                    *attester,
                    *verifier,
                    mutual,
                ),
            },
    {
        match NativeConf::build(server, enclave_id, tls_type, crypto, attester, verifier, mutual) {
            Ok(conf) => Ok(RatsTls { conf, phase: Phase::Configured }),
            Err(e) => Err(e),
        }
    }

    /// The configuration record to hand to the transport.
    pub fn conf(&self) -> (r: &NativeConf)
        ensures
            *r == self.conf_of(),
    {
        &self.conf
    }

    /// The phase of the session.
    pub fn phase(&self) -> (r: Phase)
        ensures
            r == self.phase_of(),
    {
        self.phase
    }

    /// Whether the session holds a context of the transport.
    pub fn owns_context(&self) -> (r: bool)
        ensures
            r == self.phase_of().owns_context(),
    {
        match self.phase {
            Phase::Initialized | Phase::Ready | Phase::Established | Phase::Failed => true,
            Phase::Configured | Phase::Released => false,
        }
    }

    /// Tells whether a handshake may start now: the caller runs the
    /// transport's handshake only on `Ok`.
    pub fn ready_to_negotiate(&self) -> (r: Result<(), NegotiationError>)
        ensures
            r.is_ok() == (self.phase_of() is Ready),
            r.is_err() ==> r.unwrap_err() == NegotiationError::NotReady,
    {
        match self.phase {
            Phase::Ready => Ok(()),
            _ => Err(NegotiationError::NotReady),
        }
    }

    /// Tells whether application data may be transferred now: the caller
    /// asks the transport to read or write only on `Ok`.
    pub fn ready_to_transfer(&self) -> (r: Result<(), TransferError>)
        ensures
            r.is_ok() == (self.phase_of() is Established),
            r.is_err() ==> r.unwrap_err() == TransferError::NotEstablished,
    {
        match self.phase {
            Phase::Established => Ok(()),
            _ => Err(TransferError::NotEstablished),
        }
    }

    /// Reports the code that the transport returned for creating its context.
    /// On a failure no context exists and the session is released.
    pub fn initialized(&mut self, code: u32) -> (r: Result<(), ConstructionError>)
        ensures
            (final(self).phase_of(), r) == init_outcome(old(self).phase_of(), code),
            final(self).conf_of() == old(self).conf_of(),
    {
        match self.phase {
            Phase::Configured => {
                if code == NATIVE_OK {
                    self.phase = Phase::Initialized;
                    Ok(())
                } else {
                    self.phase = Phase::Released;
                    Err(ConstructionError::Init(code))
                }
            },
            _ => Err(ConstructionError::OutOfSequence),
        }
    }

    /// Reports the code that the transport returned for registering the
    /// evidence callback. On a failure the session has failed and still holds
    /// its context, which `release` tells the caller to free.
    pub fn callback_registered(&mut self, code: u32) -> (r: Result<(), ConstructionError>)
        ensures
            (final(self).phase_of(), r) == registration_outcome(old(self).phase_of(), code),
            final(self).conf_of() == old(self).conf_of(),
    {
        match self.phase {
            Phase::Initialized => {
                if code == NATIVE_OK {
                    self.phase = Phase::Ready;
                    Ok(())
                } else {
                    self.phase = Phase::Failed;
                    Err(ConstructionError::CallbackRegistration(code))
                }
            },
            _ => Err(ConstructionError::OutOfSequence),
        }
    }

    /// Reports a handshake: the code that the transport returned, and whether
    /// the evidence callback rejected the peer while it ran. The channel is
    /// established only if the code is `NATIVE_OK` and nothing was rejected.
    pub fn negotiate(&mut self, code: u32, rejected: bool) -> (r: Result<(), NegotiationError>)
        ensures
            (final(self).phase_of(), r) == negotiation_outcome(
                old(self).phase_of(),
                code,
                rejected,
            ),
            final(self).conf_of() == old(self).conf_of(),
    {
        match self.phase {
            Phase::Ready => {
                if rejected {
                    self.phase = Phase::Failed;
                    Err(NegotiationError::EvidenceRejected(code))
                } else if code != NATIVE_OK {
                    self.phase = Phase::Failed;
                    Err(NegotiationError::Handshake(code))
                } else {
                    self.phase = Phase::Established;
                    Ok(())
                }
            },
            _ => Err(NegotiationError::NotReady),
        }
    }

    /// Reports a read into a buffer of `capacity` bytes: the code that the
    /// transport returned and the number of bytes it says it placed. The
    /// result is the number of bytes read, never more than `capacity`.
    pub fn receive(&self, capacity: usize, code: u32, len: usize) -> (r: Result<
        usize,
        TransferError,
    >)
        ensures
            r == transfer_outcome(self.phase_of(), capacity, code, len),
    {
        match self.phase {
            Phase::Established => {
                if code != NATIVE_OK {
                    Err(TransferError::Native(code))
                } else if len > capacity {
                    Err(TransferError::LengthOutOfRange(len))
                } else {
                    Ok(len)
                }
            },
            _ => Err(TransferError::NotEstablished),
        }
    }

    /// Reports a write of `offered` bytes: the code that the transport
    /// returned and the number of bytes it says it accepted. The result is the
    /// number of bytes sent, never more than `offered`; it may be less, and
    /// the caller then sends the rest.
    pub fn transmit(&self, offered: usize, code: u32, len: usize) -> (r: Result<
        usize,
        TransferError,
    >)
        ensures
            r == transfer_outcome(self.phase_of(), offered, code, len),
    {
        match self.phase {
            Phase::Established => {
                if code != NATIVE_OK {
                    Err(TransferError::Native(code))
                } else if len > offered {
                    Err(TransferError::LengthOutOfRange(len))
                } else {
                    Ok(len)
                }
            },
            _ => Err(TransferError::NotEstablished),
        }
    }

    /// Releases the session and tells whether the caller has to free the
    /// context now. A second release frees nothing.
    pub fn release(&mut self) -> (free: bool)
        ensures
            free == old(self).phase_of().owns_context(),
            final(self).phase_of() == Phase::Released,
            final(self).conf_of() == old(self).conf_of(),
    {
        let free = self.owns_context();
        self.phase = Phase::Released;
        free
    }
}

/// A released session stays released, and every report on it is refused.
pub proof fn lemma_released_is_final(event: Event, limit: usize, code: u32, len: usize)
    ensures
        step(Phase::Released, event) == Phase::Released,
        init_outcome(Phase::Released, code).1.is_err(),
        registration_outcome(Phase::Released, code).1.is_err(),
        forall|rejected: bool| negotiation_outcome(Phase::Released, code, rejected).1.is_err(),
        transfer_outcome(Phase::Released, limit, code, len).is_err(),
{
}

/// Whatever is reported after a release, the session stays released.
pub proof fn lemma_released_forever(events: Seq<Event>)
    ensures
        run(Phase::Released, events) == Phase::Released,
    decreases events.len(),
{
    if events.len() > 0 {
        lemma_released_is_final(events[0], 0, 0, 0);
        lemma_released_forever(events.drop_first());
    }
}

/// A channel becomes established in one way only: by a handshake on a ready
/// session for which the transport reported no error and no evidence was rejected.
pub proof fn lemma_established_by_clean_handshake(phase: Phase, event: Event)
    requires
        !(phase is Established),
        step(phase, event) is Established,
    ensures
        phase is Ready,
        event == Event::Negotiated(NATIVE_OK, false),
{
}

/// Once a session has failed, nothing that is reported later establishes the
/// channel, so no transfer on it ever succeeds.
pub proof fn lemma_failed_never_established(
    events: Seq<Event>,
    limit: usize,
    code: u32,
    len: usize,
)
    ensures
        run(Phase::Failed, events) is Failed || run(Phase::Failed, events) is Released,
        transfer_outcome(run(Phase::Failed, events), limit, code, len).is_err(),
    decreases events.len(),
{
    if events.len() > 0 {
        if step(Phase::Failed, events[0]) is Released {
            lemma_released_forever(events.drop_first());
        } else {
            lemma_failed_never_established(events.drop_first(), limit, code, len);
        }
    }
}

/// A handshake during which evidence was rejected never leaves the session
/// able to transfer data, whatever code the transport reported and whatever
/// is reported later.
pub proof fn lemma_rejection_bars_transfer(
    code: u32,
    later: Seq<Event>,
    limit: usize,
    transfer_code: u32,
    len: usize,
)
    ensures
        transfer_outcome(
            run(negotiation_outcome(Phase::Ready, code, true).0, later),
            limit,
            transfer_code,
            len,
        ).is_err(),
{
    lemma_failed_never_established(later, limit, transfer_code, len);
}

/// Over any sequence of events the caller is told to free the context at
/// most once, and never after the session was released.
pub proof fn lemma_freed_at_most_once(phase: Phase, events: Seq<Event>)
    ensures
        frees(phase, events) <= 1,
        phase is Released ==> frees(phase, events) == 0,
    decreases events.len(),
{
    if events.len() > 0 {
        let next = step(phase, events[0]);
        lemma_freed_at_most_once(next, events.drop_first());
        if events[0] is Released {
            lemma_released_forever(events.drop_first());
            lemma_freed_at_most_once(Phase::Released, events.drop_first());
        }
    }
}

} // verus!
