//! Classifying requests by their routing headers, checking those headers, and
//! removing them from relayed responses.
use vstd::prelude::*;

use crate::headers::{
    first_value, forwarded_url_name, get_header, contains_header, has_header, is_blank,
    is_routing, name_eq, names_match, present_and_filled, proxy_metadata_name,
    proxy_signature_name, request_id_name, routing_names, Header, RoutingHeaderSet,
};

verus! {

/// Where a request goes, judged by the routing headers alone.
#[derive(Debug, PartialEq, Eq, Structural)]
pub enum Route {
    /// No routing header is present: the local handler serves it.
    Local,
    /// At least one routing header is present: it is meant for the relay.
    ProxyCandidate,
}

/// Why a request that names routing headers cannot be relayed.
#[derive(Debug)]
pub enum HeaderError {
    /// The named routing header is absent or blank.
    MissingOrEmptyHeader(String),
}

/// The values of the three routing headers of a request that passed the check.
#[derive(Debug)]
pub struct ProxyHeaders {
    pub metadata: String,
    pub signature: String,
    pub forwarded_url: String,
}

/// Some routing header is present.
pub open spec fn any_routing(hs: Seq<Header>) -> bool {
    exists|k: int| 0 <= k < 3 && has_header(hs, #[trigger] routing_names()[k])
}

/// The first routing header, in checking order, that is absent or blank.
pub open spec fn first_missing(hs: Seq<Header>) -> Option<Seq<char>> {
    if !present_and_filled(hs, proxy_metadata_name()) {
        Some(proxy_metadata_name())
    } else if !present_and_filled(hs, proxy_signature_name()) {
        Some(proxy_signature_name())
    } else if !present_and_filled(hs, forwarded_url_name()) {
        Some(forwarded_url_name())
    } else {
        None
    }
}

/// Sorts a request by the presence of any routing header.
pub fn classify(set: &RoutingHeaderSet, hs: &Vec<Header>) -> (r: Route)
    requires
        set.wf(),
    ensures
        r is ProxyCandidate <==> any_routing(hs@),
{
    let a = contains_header(hs, set.name(0));
    let b = contains_header(hs, set.name(1));
    let c = contains_header(hs, set.name(2));
    proof {
        if any_routing(hs@) {
            let k = choose|k: int| 0 <= k < 3 && has_header(hs@, #[trigger] routing_names()[k]);
            assert(k == 0 || k == 1 || k == 2);
        }
    }
    if a || b || c {
        Route::ProxyCandidate
    } else {
        proof {
            assert forall|k: int| 0 <= k < 3 implies !has_header(hs@, #[trigger] routing_names()[k]) by {
                assert(k == 0 || k == 1 || k == 2);
            }
        }
        Route::Local
    }
}

/// Checks one routing header: present, and its first value not blank.
fn check_header(hs: &Vec<Header>, name: &str) -> (r: Result<String, HeaderError>)
    ensures
        match r {
            Ok(v) => present_and_filled(hs@, name@) && first_value(hs@, name@) == Some(v@),
            Err(HeaderError::MissingOrEmptyHeader(n)) => !present_and_filled(hs@, name@) && n@
                == name@,
        },
{
    match get_header(hs, name) {
        Some(v) => {
            if is_blank(v.as_str()) {
                Err(HeaderError::MissingOrEmptyHeader(String::from_str(name)))
            } else {
                Ok(v.clone())
            }
        },
        None => Err(HeaderError::MissingOrEmptyHeader(String::from_str(name))),
    }
}

/// Checks the routing headers in order and stops at the first one that is
/// absent or blank; when all three are filled, returns their values.
pub fn validate(set: &RoutingHeaderSet, hs: &Vec<Header>) -> (r: Result<ProxyHeaders, HeaderError>)
    requires
        set.wf(),
    ensures
        match r {
            Ok(p) => {
                &&& first_missing(hs@) is None
                &&& first_value(hs@, proxy_metadata_name()) == Some(p.metadata@)
                &&& first_value(hs@, proxy_signature_name()) == Some(p.signature@)
                &&& first_value(hs@, forwarded_url_name()) == Some(p.forwarded_url@)
            },
            Err(HeaderError::MissingOrEmptyHeader(n)) => first_missing(hs@) == Some(n@),
        },
{
    let metadata = match check_header(hs, set.name(0)) {
        Ok(v) => v,
        Err(e) => return Err(e),
    };
    let signature = match check_header(hs, set.name(1)) {
        Ok(v) => v,
        Err(e) => return Err(e),
    };
    let forwarded_url = match check_header(hs, set.name(2)) {
        Ok(v) => v,
        Err(e) => return Err(e),
    };
    Ok(ProxyHeaders { metadata, signature, forwarded_url })
}

/// The list without its routing headers, the others kept in order.
pub open spec fn strip(hs: Seq<Header>) -> Seq<Header>
    decreases hs.len(),
{
    if hs.len() == 0 {
        hs
    } else {
        let rest = strip(hs.drop_first());
        if is_routing(hs[0].name@) {
            rest
        } else {
            seq![hs[0]] + rest
        }
    }
}

/// Whether the name is one of the routing headers.
pub fn is_routing_name(set: &RoutingHeaderSet, name: &str) -> (r: bool)
    requires
        set.wf(),
    ensures
        r == is_routing(name@),
{
    let a = name_eq(name, set.name(0));
    let b = name_eq(name, set.name(1));
    let c = name_eq(name, set.name(2));
    proof {
        if is_routing(name@) {
            let k = choose|k: int| 0 <= k < 3 && names_match(name@, #[trigger] routing_names()[k]);
            assert(k == 0 || k == 1 || k == 2);
        }
    }
    a || b || c
}

/// Removes every routing header from a relayed response's headers.
pub fn sanitize(set: &RoutingHeaderSet, hs: &mut Vec<Header>)
    requires
        set.wf(),
    ensures
        final(hs)@ == strip(old(hs)@),
{
    let ghost orig = hs@;
    let n = hs.len();
    let mut i: usize = n;
    assert(orig.subrange(n as int, n as int) =~= Seq::<Header>::empty());
    assert(orig.subrange(0, n as int) =~= orig);
    while i > 0
        invariant
            n == orig.len(),
            i <= n,
            hs@ == orig.subrange(0, i as int) + strip(orig.subrange(i as int, n as int)),
            set.wf(),
        decreases i,
    {
        let j = i - 1;
        let ghost tail = orig.subrange(i as int, n as int);
        assert(orig.subrange(j as int, n as int).drop_first() =~= tail);
        assert(orig.subrange(j as int, n as int)[0] == orig[j as int]);
        assert(hs@[j as int] == orig[j as int]);
        if is_routing_name(set, hs[j].name.as_str()) {
            hs.remove(j);
            assert(hs@ =~= orig.subrange(0, j as int) + strip(orig.subrange(j as int, n as int)));
        } else {
            assert(hs@ =~= orig.subrange(0, j as int) + strip(orig.subrange(j as int, n as int)));
        }
        i = j;
    }
    assert(hs@ =~= strip(orig));
}

/// Nothing that the strip leaves is a routing header.
pub proof fn lemma_strip_clean(hs: Seq<Header>)
    ensures
        forall|i: int| 0 <= i < strip(hs).len() ==> !is_routing(#[trigger] strip(hs)[i].name@),
    decreases hs.len(),
{
    if hs.len() > 0 {
        lemma_strip_clean(hs.drop_first());
        let rest = strip(hs.drop_first());
        if !is_routing(hs[0].name@) {
            assert forall|i: int| 0 <= i < strip(hs).len() implies !is_routing(
                #[trigger] strip(hs)[i].name@,
            ) by {
                if i > 0 {
                    assert(strip(hs)[i] == rest[i - 1]);
                }
            }
        }
    }
}

/// A list without routing headers is left as it is.
pub proof fn lemma_strip_keeps_clean(hs: Seq<Header>)
    requires
        forall|i: int| 0 <= i < hs.len() ==> !is_routing(#[trigger] hs[i].name@),
    ensures
        strip(hs) == hs,
    decreases hs.len(),
{
    if hs.len() > 0 {
        let t = hs.drop_first();
        assert forall|i: int| 0 <= i < t.len() implies !is_routing(#[trigger] t[i].name@) by {
            assert(t[i] == hs[i + 1]);
        }
        lemma_strip_keeps_clean(t);
        assert(!is_routing(hs[0].name@));
        assert(seq![hs[0]] + t =~= hs);
    }
}

/// Stripping keeps every header that is no routing header.
proof fn lemma_strip_keeps(hs: Seq<Header>, i: int)
    requires
        0 <= i < hs.len(),
        !is_routing(hs[i].name@),
    ensures
        exists|j: int| 0 <= j < strip(hs).len() && #[trigger] strip(hs)[j] == hs[i],
    decreases hs.len(),
{
    let t = hs.drop_first();
    let rest = strip(t);
    if i == 0 {
        assert(strip(hs)[0] == hs[0]);
    } else {
        assert(t[i - 1] == hs[i]);
        lemma_strip_keeps(t, i - 1);
        let j = choose|j: int| 0 <= j < rest.len() && #[trigger] rest[j] == t[i - 1];
        if is_routing(hs[0].name@) {
            assert(strip(hs)[j] == hs[i]);
        } else {
            assert(strip(hs)[j + 1] == hs[i]);
        }
    }
}

/// A relayed response leaves with no routing header, and with the correlation
/// id header that the upstream gave it, if any.
pub proof fn lemma_relayed_response(resp: Seq<Header>)
    ensures
        forall|i: int| 0 <= i < strip(resp).len() ==> !is_routing(#[trigger] strip(resp)[i].name@),
        has_header(resp, request_id_name()) ==> has_header(strip(resp), request_id_name()),
{
    lemma_strip_clean(resp);
    if has_header(resp, request_id_name()) {
        let i = choose|i: int| 0 <= i < resp.len() && names_match(#[trigger] resp[i].name@, request_id_name());
        assert(resp[i].name@.len() == 12);
        assert(routing_names()[0].len() == 19);
        assert(routing_names()[1].len() == 20);
        assert(routing_names()[2].len() == 18);
        lemma_strip_keeps(resp, i);
        let j = choose|j: int| 0 <= j < strip(resp).len() && #[trigger] strip(resp)[j] == resp[i];
        assert(names_match(strip(resp)[j].name@, request_id_name()));
    }
}

/// Stripping the routing headers twice gives what stripping them once gives.
pub proof fn lemma_sanitize_idempotent(hs: Seq<Header>)
    ensures
        strip(strip(hs)) == strip(hs),
{
    lemma_strip_clean(hs);
    lemma_strip_keeps_clean(strip(hs));
}

} // verus!
