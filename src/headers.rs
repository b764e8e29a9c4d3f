//! Header lists, the routing header registry, and name matching.
use vstd::prelude::*;

verus! {

/// One header line: its name and its value.
pub struct Header {
    pub name: String,
    pub value: String,
}

impl Header {
    pub fn new(name: &str, value: &str) -> (r: Header)
        ensures
            r.name@ == name@,
            r.value@ == value@,
    {
        Header { name: String::from_str(name), value: String::from_str(value) }
    }
}

/// The character with ASCII upper case letters taken to lower case, as a code point.
pub open spec fn fold_char(c: char) -> u32 {
    if 'A' <= c && c <= 'Z' {
        (c as u32 + 32) as u32
    } else {
        c as u32
    }
}

/// Header names compare without regard to ASCII case.
pub open spec fn names_match(a: Seq<char>, b: Seq<char>) -> bool {
    a.len() == b.len() && forall|i: int| 0 <= i < a.len() ==> fold_char(#[trigger] a[i]) == fold_char(b[i])
}

/// Some header of the list carries the name.
pub open spec fn has_header(hs: Seq<Header>, name: Seq<char>) -> bool {
    exists|i: int| 0 <= i < hs.len() && names_match(#[trigger] hs[i].name@, name)
}

/// Position `i` holds the first header of the list that carries the name.
pub open spec fn is_first(hs: Seq<Header>, name: Seq<char>, i: int) -> bool {
    &&& 0 <= i < hs.len()
    &&& names_match(hs[i].name@, name)
    &&& forall|j: int| 0 <= j < i ==> !names_match(#[trigger] hs[j].name@, name)
}

/// The value of the first header that carries the name, if there is one.
pub open spec fn first_value(hs: Seq<Header>, name: Seq<char>) -> Option<Seq<char>> {
    if has_header(hs, name) {
        Some(hs[choose|i: int| is_first(hs, name, i)].value@)
    } else {
        None
    }
}

/// The characters with the Unicode White_Space property.
pub open spec fn is_white_space(c: char) -> bool {
    let u = c as u32;
    ||| 0x9 <= u && u <= 0xD
    ||| u == 0x20 || u == 0x85 || u == 0xA0 || u == 0x1680
    ||| 0x2000 <= u && u <= 0x200A
    ||| u == 0x2028 || u == 0x2029 || u == 0x202F || u == 0x205F || u == 0x3000
}

/// A value is blank when nothing is left of it once white space is trimmed.
pub open spec fn blank(s: Seq<char>) -> bool {
    forall|i: int| 0 <= i < s.len() ==> is_white_space(#[trigger] s[i])
}

/// The header is there, and the value of its first occurrence is not blank.
pub open spec fn present_and_filled(hs: Seq<Header>, name: Seq<char>) -> bool {
    match first_value(hs, name) {
        Some(v) => !blank(v),
        None => false,
    }
}

/// The name of the header that carries the target URL of a relayed request.
pub open spec fn forwarded_url_name() -> Seq<char> {
    seq!['x', '-', 'c', 'f', '-', 'f', 'o', 'r', 'w', 'a', 'r', 'd', 'e', 'd', '-', 'u', 'r', 'l']
}

/// The name of the header that carries the route service signature.
pub open spec fn proxy_signature_name() -> Seq<char> {
    seq!['x', '-', 'c', 'f', '-', 'p', 'r', 'o', 'x', 'y', '-', 's', 'i', 'g', 'n', 'a', 't', 'u', 'r', 'e']
}

/// The name of the header that carries the route service metadata.
pub open spec fn proxy_metadata_name() -> Seq<char> {
    seq!['x', '-', 'c', 'f', '-', 'p', 'r', 'o', 'x', 'y', '-', 'm', 'e', 't', 'a', 'd', 'a', 't', 'a']
}

/// The name of the header that carries the request's correlation id.
pub open spec fn request_id_name() -> Seq<char> {
    seq!['x', '-', 'r', 'e', 'q', 'u', 'e', 's', 't', '-', 'i', 'd']
}

/// The routing headers, in the order in which they are checked.
pub open spec fn routing_names() -> Seq<Seq<char>> {
    seq![proxy_metadata_name(), proxy_signature_name(), forwarded_url_name()]
}

/// The header is one of the routing headers.
pub open spec fn is_routing(name: Seq<char>) -> bool {
    exists|k: int| 0 <= k < 3 && names_match(name, #[trigger] routing_names()[k])
}

pub const X_CF_FORWARDED_URL: &'static str = "x-cf-forwarded-url";

pub const X_CF_PROXY_SIGNATURE: &'static str = "x-cf-proxy-signature";

pub const X_CF_PROXY_METADATA: &'static str = "x-cf-proxy-metadata";

pub const X_REQUEST_ID: &'static str = "x-request-id";

/// The registry of routing header names, built once and shared by reference.
pub struct RoutingHeaderSet {
    names: Vec<String>,
}

impl RoutingHeaderSet {
    pub closed spec fn view(&self) -> Seq<Seq<char>> {
        self.names@.map_values(|n: String| n@)
    }

    pub open spec fn wf(&self) -> bool {
        self@ == routing_names()
    }

    pub fn new() -> (r: RoutingHeaderSet)
        ensures
            r.wf(),
    {
        let mut names: Vec<String> = Vec::new();
        names.push(String::from_str(X_CF_PROXY_METADATA));
        names.push(String::from_str(X_CF_PROXY_SIGNATURE));
        names.push(String::from_str(X_CF_FORWARDED_URL));
        proof {
            reveal_strlit("x-cf-proxy-metadata");
            reveal_strlit("x-cf-proxy-signature");
            reveal_strlit("x-cf-forwarded-url");
            assert(X_CF_PROXY_METADATA@ =~= proxy_metadata_name());
            assert(X_CF_PROXY_SIGNATURE@ =~= proxy_signature_name());
            assert(X_CF_FORWARDED_URL@ =~= forwarded_url_name());
        }
        let r = RoutingHeaderSet { names };
        assert(r@ =~= routing_names());
        r
    }

    /// The name at position `k` of the checking order.
    pub fn name<'a>(&'a self, k: usize) -> (r: &'a str)
        requires
            k < self@.len(),
        ensures
            r@ == self@[k as int],
    {
        self.names[k].as_str()
    }
}

/// Relies on `char::is_whitespace`, which tests the Unicode White_Space
/// property.
#[verifier::external_body]
fn white_space(c: char) -> (r: bool)
    ensures
        r == is_white_space(c),
{
    c.is_whitespace()
}

/// Whether the value is blank: empty once trimmed of white space.
pub fn is_blank(s: &str) -> (r: bool)
    ensures
        r == blank(s@),
{
    let n = s.unicode_len();
    let mut i: usize = 0;
    while i < n
        invariant
            n == s@.len(),
            i <= n,
            forall|j: int| 0 <= j < i ==> is_white_space(#[trigger] s@[j]),
        decreases n - i,
    {
        if !white_space(s.get_char(i)) {
            return false;
        }
        i = i + 1;
    }
    true
}

/// The position of the first header that carries the name.
pub fn find_header(hs: &Vec<Header>, name: &str) -> (r: Option<usize>)
    ensures
        r is None <==> !has_header(hs@, name@),
        r matches Some(i) ==> is_first(hs@, name@, i as int),
{
    let mut i: usize = 0;
    while i < hs.len()
        invariant
            i <= hs@.len(),
            forall|j: int| 0 <= j < i ==> !names_match(#[trigger] hs@[j].name@, name@),
        decreases hs@.len() - i,
    {
        if name_eq(hs[i].name.as_str(), name) {
            return Some(i);
        }
        i = i + 1;
    }
    None
}

/// Whether some header carries the name.
pub fn contains_header(hs: &Vec<Header>, name: &str) -> (r: bool)
    ensures
        r == has_header(hs@, name@),
{
    find_header(hs, name).is_some()
}

/// Two positions that both hold the first occurrence of a name are one.
pub proof fn lemma_first_unique(hs: Seq<Header>, name: Seq<char>, i: int, j: int)
    requires
        is_first(hs, name, i),
        is_first(hs, name, j),
    ensures
        i == j,
{
    if i < j {
        assert(!names_match(hs[i].name@, name));
    } else if j < i {
        assert(!names_match(hs[j].name@, name));
    }
}

/// The value of the first header that carries the name.
pub fn get_header<'a>(hs: &'a Vec<Header>, name: &str) -> (r: Option<&'a String>)
    ensures
        match r {
            Some(v) => first_value(hs@, name@) == Some(v@),
            None => first_value(hs@, name@) is None,
        },
{
    match find_header(hs, name) {
        Some(i) => {
            proof {
                let c = choose|k: int| is_first(hs@, name@, k);
                lemma_first_unique(hs@, name@, c, i as int);
            }
            Some(&hs[i].value)
        },
        None => None,
    }
}

pub fn fold(c: char) -> (r: u32)
    ensures
        r == fold_char(c),
{
    if 'A' <= c && c <= 'Z' {
        c as u32 + 32
    } else {
        c as u32
    }
}

/// Whether two header names are equal without regard to ASCII case.
pub fn name_eq(a: &str, b: &str) -> (r: bool)
    ensures
        r == names_match(a@, b@),
{
    let n = a.unicode_len();
    if n != b.unicode_len() {
        return false;
    }
    let mut i: usize = 0;
    while i < n
        invariant
            n == a@.len(),
            n == b@.len(),
            i <= n,
            forall|j: int| 0 <= j < i ==> fold_char(#[trigger] a@[j]) == fold_char(b@[j]),
        decreases n - i,
    {
        if fold(a.get_char(i)) != fold(b.get_char(i)) {
            return false;
        }
        i = i + 1;
    }
    true
}

} // verus!
