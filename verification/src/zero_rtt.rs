//! Conservative 0-RTT replay-safety policy.
use vstd::prelude::*;

verus! {

/// An HTTP request method, identified by its token (`GET`, `HEAD`, ... or an extension).
#[derive(Clone, Debug)]
pub enum Method {
    /// `OPTIONS`
    Options,
    /// `GET`
    Get,
    /// `POST`
    Post,
    /// `PUT`
    Put,
    /// `DELETE`
    Delete,
    /// `HEAD`
    Head,
    /// `TRACE`
    Trace,
    /// `CONNECT`
    Connect,
    /// `PATCH`
    Patch,
    /// Any other method token.
    Extension(Vec<u8>),
}

/// The ASCII bytes of `GET`.
pub open spec fn get_token() -> Seq<u8> {
    seq![71u8, 69u8, 84u8]
}

/// The ASCII bytes of `HEAD`.
pub open spec fn head_token() -> Seq<u8> {
    seq![72u8, 69u8, 65u8, 68u8]
}

/// The method's token, as ASCII bytes. Two methods are the same method exactly when their
/// tokens are equal.
pub open spec fn method_token(m: Method) -> Seq<u8> {
    match m {
        Method::Options => seq![79u8, 80u8, 84u8, 73u8, 79u8, 78u8, 83u8],
        Method::Get => get_token(),
        Method::Post => seq![80u8, 79u8, 83u8, 84u8],
        Method::Put => seq![80u8, 85u8, 84u8],
        Method::Delete => seq![68u8, 69u8, 76u8, 69u8, 84u8, 69u8],
        Method::Head => head_token(),
        Method::Trace => seq![84u8, 82u8, 65u8, 67u8, 69u8],
        Method::Connect => seq![67u8, 79u8, 78u8, 78u8, 69u8, 67u8, 84u8],
        Method::Patch => seq![80u8, 65u8, 84u8, 67u8, 72u8],
        Method::Extension(token) => token@,
    }
}

impl View for Method {
    type V = Seq<u8>;

    open spec fn view(&self) -> Seq<u8> {
        method_token(*self)
    }
}

impl Method {
    /// `GET`
    pub const GET: Method = Method::Get;

    /// `HEAD`
    pub const HEAD: Method = Method::Head;

    /// `POST`
    pub const POST: Method = Method::Post;

    /// `PUT`
    pub const PUT: Method = Method::Put;

    /// `DELETE`
    pub const DELETE: Method = Method::Delete;

    /// `OPTIONS`
    pub const OPTIONS: Method = Method::Options;

    /// `PATCH`
    pub const PATCH: Method = Method::Patch;

    /// `TRACE`
    pub const TRACE: Method = Method::Trace;

    /// `CONNECT`
    pub const CONNECT: Method = Method::Connect;

    /// The method's token bytes.
    pub fn token(&self) -> (token: Vec<u8>)
        ensures
            token@ == self@,
    {
        let t = match self {
            Method::Options => vec![79u8, 80u8, 84u8, 73u8, 79u8, 78u8, 83u8],
            Method::Get => vec![71u8, 69u8, 84u8],
            Method::Post => vec![80u8, 79u8, 83u8, 84u8],
            Method::Put => vec![80u8, 85u8, 84u8],
            Method::Delete => vec![68u8, 69u8, 76u8, 69u8, 84u8, 69u8],
            Method::Head => vec![72u8, 69u8, 65u8, 68u8],
            Method::Trace => vec![84u8, 82u8, 65u8, 67u8, 69u8],
            Method::Connect => vec![67u8, 79u8, 78u8, 78u8, 69u8, 67u8, 84u8],
            Method::Patch => vec![80u8, 65u8, 84u8, 67u8, 72u8],
            Method::Extension(token) => token.clone(),
        };
        assert(t@ =~= self@);
        t
    }

    /// The method with the given token: a standard method where the token names one,
    /// otherwise an extension method.
    pub fn from_token(token: &[u8]) -> (m: Method)
        ensures
            m@ == token@,
            !(m is Extension) <==> is_standard_token(token@),
    {
        let mut i: usize = 0;
        while i < 9
            invariant
                0 <= i <= 9,
                forall|j: int| 0 <= j < i ==> method_token(#[trigger] standard_method_at(j))
                    != token@,
            decreases 9 - i,
        {
            let candidate = standard_method(i);
            let candidate_token = candidate.token();
            if bytes_equal(candidate_token.as_slice(), token) {
                return candidate;
            }
            i = i + 1;
        }
        proof {
            assert forall|j: int| 0 <= j < 9 implies method_token(#[trigger] standard_method_at(j))
                != token@ by {}
        }
        Method::Extension(vstd::slice::slice_to_vec(token))
    }
}

/// The standard methods, in the order `from_token` tries them.
pub open spec fn standard_method_at(i: int) -> Method {
    if i == 0 {
        Method::Options
    } else if i == 1 {
        Method::Get
    } else if i == 2 {
        Method::Post
    } else if i == 3 {
        Method::Put
    } else if i == 4 {
        Method::Delete
    } else if i == 5 {
        Method::Head
    } else if i == 6 {
        Method::Trace
    } else if i == 7 {
        Method::Connect
    } else {
        Method::Patch
    }
}

/// The token names one of the standard methods.
pub open spec fn is_standard_token(token: Seq<u8>) -> bool {
    exists|i: int| 0 <= i < 9 && method_token(#[trigger] standard_method_at(i)) == token
}

/// The standard method at position `i`.
fn standard_method(i: usize) -> (m: Method)
    requires
        i < 9,
    ensures
        m == standard_method_at(i as int),
        !(m is Extension),
{
    if i == 0 {
        Method::Options
    } else if i == 1 {
        Method::Get
    } else if i == 2 {
        Method::Post
    } else if i == 3 {
        Method::Put
    } else if i == 4 {
        Method::Delete
    } else if i == 5 {
        Method::Head
    } else if i == 6 {
        Method::Trace
    } else if i == 7 {
        Method::Connect
    } else {
        Method::Patch
    }
}

/// Whether two byte strings are equal.
fn bytes_equal(a: &[u8], b: &[u8]) -> (eq: bool)
    ensures
        eq == (a@ == b@),
{
    if a.len() != b.len() {
        return false;
    }
    let mut i: usize = 0;
    while i < a.len()
        invariant
            0 <= i <= a@.len(),
            a@.len() == b@.len(),
            forall|j: int| 0 <= j < i ==> a@[j] == b@[j],
        decreases a@.len() - i,
    {
        if a[i] != b[i] {
            return false;
        }
        i = i + 1;
    }
    assert(a@ =~= b@);
    true
}

/// Default methods considered safe for replayable 0-RTT requests: `GET` and `HEAD`.
pub fn default_zero_rtt_methods() -> (methods: Vec<Method>)
    ensures
        methods@ == seq![Method::Get, Method::Head],
{
    vec![Method::GET, Method::HEAD]
}

/// `method` is one of the `allowed` methods.
pub open spec fn zero_rtt_allows(method: Seq<u8>, allowed: Seq<Method>) -> bool {
    exists|i: int| 0 <= i < allowed.len() && #[trigger] method_token(allowed[i]) == method
}

/// Return whether `method` is allowed by the configured 0-RTT policy.
pub fn is_zero_rtt_safe(method: &Method, allowed: &[Method]) -> (safe: bool)
    ensures
        safe == zero_rtt_allows(method@, allowed@),
{
    let token = method.token();
    let mut i: usize = 0;
    while i < allowed.len()
        invariant
            0 <= i <= allowed@.len(),
            token@ == method@,
            forall|j: int| 0 <= j < i ==> method_token(#[trigger] allowed@[j]) != method@,
        decreases allowed@.len() - i,
    {
        let candidate = allowed[i].token();
        if bytes_equal(candidate.as_slice(), token.as_slice()) {
            return true;
        }
        i = i + 1;
    }
    false
}

/// Under the default policy, exactly `GET` and `HEAD` are replay-safe; every other method,
/// standard or extension, is refused.
pub proof fn lemma_default_policy(method: Seq<u8>)
    ensures
        zero_rtt_allows(method, seq![Method::Get, Method::Head]) <==> (method == get_token()
            || method == head_token()),
{
    let allowed = seq![Method::Get, Method::Head];
    if method == get_token() {
        assert(method_token(allowed[0]) == method);
    }
    if method == head_token() {
        assert(method_token(allowed[1]) == method);
    }
}

/// The policy depends on the allow-list alone: adding a method to it allows that method and
/// keeps allowing every method allowed before.
pub proof fn lemma_policy_extension(method: Seq<u8>, allowed: Seq<Method>, extra: Method)
    ensures
        zero_rtt_allows(extra@, allowed.push(extra)),
        zero_rtt_allows(method, allowed) ==> zero_rtt_allows(method, allowed.push(extra)),
{
    let ext = allowed.push(extra);
    assert(method_token(ext[allowed.len() as int]) == extra@);
    if zero_rtt_allows(method, allowed) {
        let i = choose|i: int| 0 <= i < allowed.len() && #[trigger] method_token(allowed[i]) == method;
        assert(method_token(ext[i]) == method);
    }
}

/// The method is a standard method, or an extension whose token names none: the form in which
/// `from_token` gives every method.
pub open spec fn is_canonical_method(m: Method) -> bool {
    m is Extension ==> !is_standard_token(method_token(m))
}

/// Each standard method's token is the ASCII text of its own name.
pub proof fn lemma_method_names()
    ensures
        method_token(Method::Options) == crate::alt_svc::ascii_bytes("OPTIONS"@),
        method_token(Method::Get) == crate::alt_svc::ascii_bytes("GET"@),
        method_token(Method::Post) == crate::alt_svc::ascii_bytes("POST"@),
        method_token(Method::Put) == crate::alt_svc::ascii_bytes("PUT"@),
        method_token(Method::Delete) == crate::alt_svc::ascii_bytes("DELETE"@),
        method_token(Method::Head) == crate::alt_svc::ascii_bytes("HEAD"@),
        method_token(Method::Trace) == crate::alt_svc::ascii_bytes("TRACE"@),
        method_token(Method::Connect) == crate::alt_svc::ascii_bytes("CONNECT"@),
        method_token(Method::Patch) == crate::alt_svc::ascii_bytes("PATCH"@),
{
    reveal_strlit("OPTIONS");
    reveal_strlit("GET");
    reveal_strlit("POST");
    reveal_strlit("PUT");
    reveal_strlit("DELETE");
    reveal_strlit("HEAD");
    reveal_strlit("TRACE");
    reveal_strlit("CONNECT");
    reveal_strlit("PATCH");
    assert(method_token(Method::Options) =~= crate::alt_svc::ascii_bytes("OPTIONS"@));
    assert(method_token(Method::Get) =~= crate::alt_svc::ascii_bytes("GET"@));
    assert(method_token(Method::Post) =~= crate::alt_svc::ascii_bytes("POST"@));
    assert(method_token(Method::Put) =~= crate::alt_svc::ascii_bytes("PUT"@));
    assert(method_token(Method::Delete) =~= crate::alt_svc::ascii_bytes("DELETE"@));
    assert(method_token(Method::Head) =~= crate::alt_svc::ascii_bytes("HEAD"@));
    assert(method_token(Method::Trace) =~= crate::alt_svc::ascii_bytes("TRACE"@));
    assert(method_token(Method::Connect) =~= crate::alt_svc::ascii_bytes("CONNECT"@));
    assert(method_token(Method::Patch) =~= crate::alt_svc::ascii_bytes("PATCH"@));
}

/// No two standard methods share a token.
pub proof fn lemma_standard_tokens_distinct(a: Method, b: Method)
    requires
        !(a is Extension),
        !(b is Extension),
        method_token(a) == method_token(b),
    ensures
        a == b,
{
    if a != b {
        assert(method_token(a).len() != method_token(b).len() || method_token(a)[0]
            != method_token(b)[0]);
    }
}

/// A standard method's token is a standard token.
proof fn lemma_standard_is_standard_token(m: Method)
    requires
        !(m is Extension),
    ensures
        is_standard_token(method_token(m)),
{
    let i: int = match m {
        Method::Options => 0,
        Method::Get => 1,
        Method::Post => 2,
        Method::Put => 3,
        Method::Delete => 4,
        Method::Head => 5,
        Method::Trace => 6,
        Method::Connect => 7,
        _ => 8,
    };
    assert(standard_method_at(i) == m);
}

/// With methods in canonical form, a standard method is replay-safe exactly when that very
/// method is in the allow-list, and an extension method exactly when an extension with the
/// same token is: no method is allowed through another one's entry.
pub proof fn lemma_allowed_only_if_listed(method: Method, allowed: Seq<Method>)
    requires
        is_canonical_method(method),
        forall|i: int| 0 <= i < allowed.len() ==> is_canonical_method(#[trigger] allowed[i]),
    ensures
        !(method is Extension) ==> (zero_rtt_allows(method@, allowed) <==> exists|i: int|
            0 <= i < allowed.len() && #[trigger] allowed[i] == method),
        method is Extension ==> (zero_rtt_allows(method@, allowed) <==> exists|i: int|
            0 <= i < allowed.len() && (#[trigger] allowed[i]) is Extension && allowed[i]@
                == method@),
{
    if zero_rtt_allows(method@, allowed) {
        let i = choose|i: int| 0 <= i < allowed.len() && #[trigger] method_token(allowed[i]) == method@;
        assert(is_canonical_method(allowed[i]));
        if !(method is Extension) {
            lemma_standard_is_standard_token(method);
            if allowed[i] is Extension {
                assert(is_standard_token(method_token(allowed[i])));
            }
            lemma_standard_tokens_distinct(allowed[i], method);
        } else {
            if !(allowed[i] is Extension) {
                lemma_standard_is_standard_token(allowed[i]);
            }
        }
    }
    if !(method is Extension) {
        if exists|i: int| 0 <= i < allowed.len() && #[trigger] allowed[i] == method {
            let i = choose|i: int| 0 <= i < allowed.len() && #[trigger] allowed[i] == method;
            assert(method_token(allowed[i]) == method@);
        }
    } else {
        if exists|i: int|
            0 <= i < allowed.len() && (#[trigger] allowed[i]) is Extension && allowed[i]@
                == method@ {
            let i = choose|i: int|
                0 <= i < allowed.len() && (#[trigger] allowed[i]) is Extension && allowed[i]@
                    == method@;
            assert(method_token(allowed[i]) == method@);
        }
    }
}

} // verus!
