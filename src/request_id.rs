//! Correlation ids: one for every request that lacks it, echoed on the response.
use vstd::prelude::*;

use crate::headers::{contains_header, get_header, first_value, has_header, request_id_name, Header, X_REQUEST_ID};

verus! {

/// A lower case hexadecimal digit.
pub open spec fn is_hex_lower(c: char) -> bool {
    ('0' <= c && c <= '9') || ('a' <= c && c <= 'f')
}

/// The hyphenated lower case form of a version 4 UUID: groups of 8, 4, 4, 4
/// and 12 digits, version digit `4`, variant digit one of `8`, `9`, `a`, `b`.
pub open spec fn is_uuid_v4(s: Seq<char>) -> bool {
    &&& s.len() == 36
    &&& forall|i: int|
        0 <= i < 36 ==> if i == 8 || i == 13 || i == 18 || i == 23 {
            #[trigger] s[i] == '-'
        } else {
            is_hex_lower(s[i])
        }
    &&& s[14] == '4'
    &&& s[19] == '8' || s[19] == '9' || s[19] == 'a' || s[19] == 'b'
}

/// Relies on `uuid::Uuid::new_v4`, which sets the version and variant bits of
/// random bits, and on its `Display`, which writes the hyphenated lower case
/// form. `new_v4` panics only when the system's random source fails.
#[verifier::external_body]
fn fresh_uuid() -> (r: String)
    ensures
        is_uuid_v4(r@),
{
    uuid::Uuid::new_v4().to_string()
}

/// Makes sure that the request carries a correlation id: an existing one is
/// kept, else a fresh one is added at the end.
pub fn ensure_request_id(hs: &mut Vec<Header>)
    ensures
        has_header(old(hs)@, request_id_name()) ==> final(hs)@ == old(hs)@,
        !has_header(old(hs)@, request_id_name()) ==> {
            &&& final(hs)@.len() == old(hs)@.len() + 1
            &&& final(hs)@.subrange(0, old(hs)@.len() as int) == old(hs)@
            &&& final(hs)@.last().name@ == request_id_name()
            &&& is_uuid_v4(final(hs)@.last().value@)
        },
        has_header(final(hs)@, request_id_name()),
{
    proof {
        reveal_strlit("x-request-id");
        assert(X_REQUEST_ID@ =~= request_id_name());
    }
    if !contains_header(hs, X_REQUEST_ID) {
        let id = fresh_uuid();
        let ghost before = hs@;
        hs.push(Header { name: String::from_str(X_REQUEST_ID), value: id });
        assert(hs@.subrange(0, before.len() as int) =~= before);
        let ghost last = hs@.len() - 1;
        assert(hs@[last].name@ =~= request_id_name());
        assert(crate::headers::names_match(hs@[last].name@, request_id_name()));
    }
}

/// Puts the request's correlation id on the response, unless the response
/// already carries one.
pub fn propagate_request_id(req: &Vec<Header>, resp: &mut Vec<Header>)
    ensures
        has_header(old(resp)@, request_id_name()) || first_value(req@, request_id_name()) is None
            ==> final(resp)@ == old(resp)@,
        !has_header(old(resp)@, request_id_name()) && first_value(req@, request_id_name()) is Some
            ==> {
            &&& final(resp)@.len() == old(resp)@.len() + 1
            &&& final(resp)@.subrange(0, old(resp)@.len() as int) == old(resp)@
            &&& final(resp)@.last().name@ == request_id_name()
            &&& Some(final(resp)@.last().value@) == first_value(req@, request_id_name())
        },
{
    proof {
        reveal_strlit("x-request-id");
        assert(X_REQUEST_ID@ =~= request_id_name());
    }
    if !contains_header(resp, X_REQUEST_ID) {
        match get_header(req, X_REQUEST_ID) {
            Some(v) => {
                let ghost before = resp@;
                resp.push(Header { name: String::from_str(X_REQUEST_ID), value: v.clone() });
                assert(resp@.subrange(0, before.len() as int) =~= before);
            },
            None => {},
        }
    }
}

} // verus!
