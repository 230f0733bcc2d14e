//! The signaling bridge: routes an inbound request and relays the offered
//! session description through a slot of depth one to the single consumer.

use vstd::prelude::*;
use vstd::utf8::*;
use crate::codec::string_from_utf8;

verus! {

/// Method of an inbound request.
#[derive(Clone, Copy, Debug, PartialEq, Eq, Structural)]
pub enum HttpMethod {
    Get,
    Post,
    Other,
}

/// Status of a response.
pub const STATUS_OK: u16 = 200;

pub const STATUS_BAD_REQUEST: u16 = 400;

pub const STATUS_NOT_FOUND: u16 = 404;

/// The path that takes session descriptions.
pub open spec fn signaling_path() -> Seq<char> {
    seq!['/', 's', 'd', 'p']
}

/// Whether `path` is the signaling path.
pub fn is_signaling_path(path: &str) -> (r: bool)
    ensures
        r == (path@ == signaling_path()),
{
    let n = path.unicode_len();
    if n != 4 {
        return false;
    }
    let r = path.get_char(0) == '/' && path.get_char(1) == 's' && path.get_char(2) == 'd'
        && path.get_char(3) == 'p';
    assert(r ==> path@ =~= signaling_path());
    r
}

/// How a request is answered.
pub enum RequestOutcome {
    /// The body text is to be handed to the consumer; answered with success.
    Forward(String),
    /// The body is not text; answered with a client error.
    BadRequest,
    /// Any other method or path; answered with not-found.
    NotFound,
}

impl RequestOutcome {
    /// The response status for this outcome.
    pub fn status(&self) -> (r: u16)
        ensures
            r == match self {
                RequestOutcome::Forward(_) => STATUS_OK,
                RequestOutcome::BadRequest => STATUS_BAD_REQUEST,
                RequestOutcome::NotFound => STATUS_NOT_FOUND,
            },
    {
        match self {
            RequestOutcome::Forward(_) => STATUS_OK,
            RequestOutcome::BadRequest => STATUS_BAD_REQUEST,
            RequestOutcome::NotFound => STATUS_NOT_FOUND,
        }
    }
}

/// Routes a request: a `POST` to the signaling path with a UTF-8 body is
/// forwarded, one with another body is a client error, anything else is not
/// found.
pub fn route_request(method: HttpMethod, path: &str, body: Vec<u8>) -> (r: RequestOutcome)
    ensures
        method == HttpMethod::Post && path@ == signaling_path() ==> if valid_utf8(body@) {
            (r matches RequestOutcome::Forward(t) && encode_utf8(t@) == body@)
        } else {
            r is BadRequest
        },
        !(method == HttpMethod::Post && path@ == signaling_path()) ==> r is NotFound,
{
    if method == HttpMethod::Post && is_signaling_path(path) {
        match string_from_utf8(body) {
            Some(t) => RequestOutcome::Forward(t),
            None => RequestOutcome::BadRequest,
        }
    } else {
        RequestOutcome::NotFound
    }
}

/// What became of an accepted request.
pub enum Accepted {
    /// The description was queued for the consumer.
    Queued,
    /// No consumer is installed or the queue is full: the caller waits and
    /// offers the description again.
    Busy(String),
    /// Answered with a client error.
    BadRequest,
    /// Answered with not-found.
    NotFound,
}

/// The abstract slot: whether a consumer is installed, and what is queued.
pub struct SlotModel {
    pub installed: bool,
    pub queued: Option<Seq<char>>,
}

/// The one bridge between the request handler and the session setup: at most
/// one consumer, and a queue of depth one.
pub struct SignalingSlot {
    installed: bool,
    queued: Option<String>,
}

impl View for SignalingSlot {
    type V = SlotModel;

    closed spec fn view(&self) -> SlotModel {
        SlotModel {
            installed: self.installed,
            queued: match self.queued {
                Some(s) => Some(s@),
                None => None,
            },
        }
    }
}

impl SignalingSlot {
    /// A slot with no consumer.
    pub fn new() -> (r: SignalingSlot)
        ensures
            r@ == (SlotModel { installed: false, queued: None }),
    {
        SignalingSlot { installed: false, queued: None }
    }

    /// Installs a new consumer, replacing any previous one and what was
    /// queued for it.
    pub fn install(&mut self)
        ensures
            final(self)@ == (SlotModel { installed: true, queued: None }),
    {
        self.installed = true;
        self.queued = None;
    }

    /// Queues `msg` if a consumer is installed and the queue is empty;
    /// otherwise hands it back.
    pub fn offer(&mut self, msg: String) -> (r: Result<(), String>)
        ensures
            old(self)@.installed && old(self)@.queued is None ==> r is Ok && final(self)@ == (
            SlotModel { installed: true, queued: Some(msg@) }),
            !(old(self)@.installed && old(self)@.queued is None) ==> (r matches Err(m) && m@
                == msg@) && final(self)@ == old(self)@,
    {
        if self.installed && self.queued.is_none() {
            self.queued = Some(msg);
            Ok(())
        } else {
            Err(msg)
        }
    }

    /// The consumer takes what is queued, if anything.
    pub fn take(&mut self) -> (r: Option<String>)
        ensures
            match r {
                Some(m) => old(self)@.queued == Some(m@),
                None => old(self)@.queued is None,
            },
            final(self)@ == (SlotModel { installed: old(self)@.installed, queued: None }),
    {
        let r = self.queued.take();
        r
    }

    /// Handles one request: routes it and queues a forwarded description.
    /// A request that is not forwarded leaves the slot unchanged.
    pub fn accept(&mut self, method: HttpMethod, path: &str, body: Vec<u8>) -> (r: Accepted)
        ensures
            !(method == HttpMethod::Post && path@ == signaling_path()) ==> r is NotFound
                && final(self)@ == old(self)@,
            method == HttpMethod::Post && path@ == signaling_path() && !valid_utf8(body@) ==> r is BadRequest
                && final(self)@ == old(self)@,
            method == HttpMethod::Post && path@ == signaling_path() && valid_utf8(body@) ==> if old(
                self,
            )@.installed && old(self)@.queued is None {
                r is Queued && final(self)@.installed && (final(self)@.queued matches Some(t)
                    && encode_utf8(t) == body@)
            } else {
                (r matches Accepted::Busy(t) && encode_utf8(t@) == body@) && final(self)@ == old(
                    self,
                )@
            },
    {
        match route_request(method, path, body) {
            RequestOutcome::Forward(t) => {
                match self.offer(t) {
                    Ok(()) => Accepted::Queued,
                    Err(t) => Accepted::Busy(t),
                }
            },
            RequestOutcome::BadRequest => Accepted::BadRequest,
            RequestOutcome::NotFound => Accepted::NotFound,
        }
    }
}

} // verus!
