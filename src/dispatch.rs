//! The per-request decisions: local or relayed, rejected or forwarded, and what
//! the caller sees when the relay fails.
use vstd::prelude::*;

use crate::headers::{first_value, is_routing, forwarded_url_name, proxy_metadata_name, proxy_signature_name, get_header, Header, RoutingHeaderSet, X_CF_FORWARDED_URL};
use crate::routing::{any_routing, classify, is_routing_name, first_missing, sanitize, strip, validate, HeaderError, ProxyHeaders, Route};

verus! {

/// What a failed relay tells the caller when failure detail may be shown.
pub struct InternalError {
    pub status: u16,
    pub message: String,
}

impl InternalError {
    /// A server error whose message carries the failure detail.
    pub fn new(detail: &str) -> (r: InternalError)
        ensures
            r.status == 500,
            r.message@ == internal_message(detail@),
    {
        let mut message = String::from_str("Internal Error: ");
        message.append(detail);
        InternalError { status: 500, message }
    }
}

/// Deployment settings, fixed for the life of the process.
#[derive(Clone, Copy, Debug, PartialEq, Eq, Structural)]
pub struct Config {
    /// The service sits behind another proxy, whose forwarding headers name the client.
    pub behind_proxy: bool,
    /// Relay failure detail is shown to the caller.
    pub disclose_errors: bool,
}

/// The body of a response that the library makes itself.
pub enum Body {
    Empty,
    Text(String),
    /// A structured error, sent as JSON.
    Error(InternalError),
}

/// A response that the library makes itself: a status and a body.
pub struct Reply {
    pub status: u16,
    pub body: Body,
}

/// A client address as the transport layer reports it.
#[derive(Clone, Copy, Debug)]
pub enum ClientAddress {
    V4([u8; 4]),
    V6([u16; 8]),
}

/// The client address could not be found: a status and a reason to show as they are.
pub struct AddressRejection {
    pub status: u16,
    pub reason: String,
}

/// What the relay needs: where the client is and where the request goes.
pub struct ProxyContext {
    pub client: ClientAddress,
    pub forwarded_url: String,
}

/// Where a request goes, once its routing headers have been read.
pub enum Decision {
    /// Hand the request, unchanged, to the local handler.
    Local,
    /// Answer at once with this response.
    Reject(Reply),
    /// Relay the request; the routing headers passed the check.
    Relay(ProxyHeaders),
}

/// The next step of a relayed request once the client address is known.
pub enum Step {
    Forward(ProxyContext),
    Respond(Reply),
}

/// The reply has this status and this text as its body.
pub open spec fn text_reply(rep: Reply, status: u16, text: Seq<char>) -> bool {
    rep.status == status && match rep.body {
        Body::Text(t) => t@ == text,
        _ => false,
    }
}

/// The body that names a missing or blank routing header.
pub open spec fn missing_message(name: Seq<char>) -> Seq<char> {
    "Did not find "@ + name + " header in request"@
}

/// The message of an internal error with the given detail.
pub open spec fn internal_message(detail: Seq<char>) -> Seq<char> {
    "Internal Error: "@ + detail
}

/// The body when a relay is asked for without a target URL.
pub open spec fn no_target_message() -> Seq<char> {
    "Header x-cf-forwarded-for needs to be set to proxy request"@
}

/// The response to a missing or blank routing header.
pub fn missing_header_reply(name: &str) -> (r: Reply)
    ensures
        text_reply(r, 400, missing_message(name@)),
{
    let mut text = String::from_str("Did not find ");
    text.append(name);
    text.append(" header in request");
    Reply { status: 400, body: Body::Text(text) }
}

/// Makes the per-request decisions, with the registry and settings it was built with.
pub struct Dispatcher {
    set: RoutingHeaderSet,
    config: Config,
}

impl Dispatcher {
    pub closed spec fn spec_config(&self) -> Config {
        self.config
    }

    pub closed spec fn wf(&self) -> bool {
        self.set.wf()
    }

    pub fn new(config: Config) -> (r: Dispatcher)
        ensures
            r.wf(),
            r.spec_config() == config,
    {
        Dispatcher { set: RoutingHeaderSet::new(), config }
    }

    pub fn config(&self) -> (r: Config)
        ensures
            r == self.spec_config(),
    {
        self.config
    }

    /// Local when no routing header is present; a 400 naming the first
    /// routing header that is absent or blank; else relayed.
    pub fn decide(&self, hs: &Vec<Header>) -> (r: Decision)
        requires
            self.wf(),
        ensures
            r is Local <==> !any_routing(hs@),
            any_routing(hs@) ==> match first_missing(hs@) {
                Some(n) => match r {
                    Decision::Reject(rep) => text_reply(rep, 400, missing_message(n)),
                    _ => false,
                },
                None => match r {
                    Decision::Relay(p) => {
                        &&& first_value(hs@, proxy_metadata_name()) == Some(p.metadata@)
                        &&& first_value(hs@, proxy_signature_name()) == Some(p.signature@)
                        &&& first_value(hs@, forwarded_url_name()) == Some(p.forwarded_url@)
                    },
                    _ => false,
                },
            },
    {
        match classify(&self.set, hs) {
            Route::Local => Decision::Local,
            Route::ProxyCandidate => match validate(&self.set, hs) {
                Ok(p) => Decision::Relay(p),
                Err(HeaderError::MissingOrEmptyHeader(n)) => Decision::Reject(missing_header_reply(n.as_str())),
            },
        }
    }

    /// After the client address was looked for: its rejection is answered as
    /// it is; else the request goes to the URL of its first target header, or
    /// is answered with a 400 when it has none.
    pub fn proxy_step(&self, hs: &Vec<Header>, addr: Result<ClientAddress, AddressRejection>) -> (r: Step)
        ensures
            match addr {
                Err(rej) => match r {
                    Step::Respond(rep) => text_reply(rep, rej.status, rej.reason@),
                    _ => false,
                },
                Ok(c) => match (first_value(hs@, forwarded_url_name()), r) {
                    (Some(u), Step::Forward(ctx)) => ctx.client == c && ctx.forwarded_url@ == u,
                    (None, Step::Respond(rep)) => text_reply(rep, 400, no_target_message()),
                    _ => false,
                },
            },
    {
        proof {
            reveal_strlit("x-cf-forwarded-url");
            assert(X_CF_FORWARDED_URL@ =~= forwarded_url_name());
        }
        match addr {
            Err(rej) => Step::Respond(Reply { status: rej.status, body: Body::Text(rej.reason) }),
            Ok(c) => match get_header(hs, X_CF_FORWARDED_URL) {
                Some(u) => Step::Forward(ProxyContext { client: c, forwarded_url: u.clone() }),
                None => Step::Respond(
                    Reply {
                        status: 400,
                        body: Body::Text(String::from_str("Header x-cf-forwarded-for needs to be set to proxy request")),
                    },
                ),
            },
        }
    }

    /// The response to a relay that failed in transport: always a 500, with
    /// the detail in a structured body only where the settings allow it.
    pub fn relay_failure(&self, detail: &str) -> (r: Reply)
        ensures
            r.status == 500,
            self.spec_config().disclose_errors ==> match r.body {
                Body::Error(e) => e.status == 500 && e.message@ == internal_message(detail@),
                _ => false,
            },
            !self.spec_config().disclose_errors ==> r.body is Empty,
    {
        if self.config.disclose_errors {
            Reply { status: 500, body: Body::Error(InternalError::new(detail)) }
        } else {
            Reply { status: 500, body: Body::Empty }
        }
    }

    /// Whether the name is one of the routing headers.
    pub fn is_routing_header(&self, name: &str) -> (r: bool)
        requires
            self.wf(),
        ensures
            r == is_routing(name@),
    {
        is_routing_name(&self.set, name)
    }

    /// Strips the routing headers from the response that the relay brought back.
    pub fn finish_relay(&self, resp: &mut Vec<Header>)
        requires
            self.wf(),
        ensures
            final(resp)@ == strip(old(resp)@),
    {
        sanitize(&self.set, resp);
    }
}

} // verus!
