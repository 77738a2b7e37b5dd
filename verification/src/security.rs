//! The origin check: a request is served only where the address of its peer
//! starts with the configured text.

use vstd::prelude::*;
use vstd::string::StringSliceAdditionalSpecFns;

verus! {

/// What becomes of a request.
#[derive(Clone, Copy, Debug, PartialEq, Eq, Structural)]
pub enum Verdict {
    /// The request goes on to the service.
    Forward,
    /// The request is answered with a refusal.
    Reject,
}

/// What a rejected peer is told.
pub fn rejection_message() -> (message: &'static str)
    ensures
        message@ == "Go away"@,
{
    "Go away"
}

/// Whether the bytes of `text` start with the bytes of `prefix`.
pub fn starts_with(text: &str, prefix: &str) -> (yes: bool)
    ensures
        yes == prefix.spec_bytes().is_prefix_of(text.spec_bytes()),
{
    let t = text.as_bytes();
    let p = prefix.as_bytes();
    if p.len() > t.len() {
        return false;
    }
    let mut i: usize = 0;
    while i < p.len()
        invariant
            p@ == prefix.spec_bytes(),
            t@ == text.spec_bytes(),
            i <= p@.len() <= t@.len(),
            forall|j: int| 0 <= j < i ==> p@[j] == t@[j],
        decreases p@.len() - i,
    {
        if p[i] != t[i] {
            return false;
        }
        i = i + 1;
    }
    true
}

/// The configuration of the origin check.
pub struct CheckOrigin {
    addr: String,
}

impl CheckOrigin {
    /// The text that the address of an admitted peer starts with.
    pub closed spec fn prefix(&self) -> Seq<u8> {
        vstd::utf8::encode_utf8(self.addr@)
    }

    /// An origin check that admits the peers whose address starts with
    /// `host`.
    pub fn new(host: &str) -> (check: Self)
        ensures
            check.prefix() == host.spec_bytes(),
    {
        CheckOrigin { addr: host.to_owned() }
    }

    /// Puts the check in front of `service`.
    pub fn new_transform<S>(&self, service: S) -> (middleware: CheckOriginMiddleware<S>)
        ensures
            middleware.prefix() == self.prefix(),
            middleware.inner() == service,
    {
        CheckOriginMiddleware { service, addr: self.addr.clone() }
    }
}

/// A service behind the origin check.
pub struct CheckOriginMiddleware<S> {
    service: S,
    addr: String,
}

impl<S> CheckOriginMiddleware<S> {
    /// The text that the address of an admitted peer starts with.
    pub closed spec fn prefix(&self) -> Seq<u8> {
        vstd::utf8::encode_utf8(self.addr@)
    }

    /// The service behind the check.
    pub closed spec fn inner(&self) -> S {
        self.service
    }

    /// The service behind the check.
    pub fn service(&self) -> (s: &S)
        ensures
            *s == self.inner(),
    {
        &self.service
    }

    /// Decides on a request by the address of its peer, written as text: it
    /// is forwarded where the address starts with the configured text, and
    /// rejected otherwise.
    pub fn verdict(&self, peer_ip: &str) -> (v: Verdict)
        ensures
            v == (if self.prefix().is_prefix_of(peer_ip.spec_bytes()) {
                Verdict::Forward
            } else {
                Verdict::Reject
            }),
    {
        if starts_with(peer_ip, self.addr.as_str()) {
            Verdict::Forward
        } else {
            Verdict::Reject
        }
    }
}

} // verus!
