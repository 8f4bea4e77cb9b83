//! Webhook request validation: per-provider authentication, event-type
//! filtering, and the branch-match decision.
//!
//! The HTTP layer outside the library reads and buffers the request, picks
//! the headers this module names, resolves the configured secret, and hands
//! everything in as plain values; the decision — reject, accept without
//! triggering, or trigger an update — is made here, verified.

use vstd::prelude::*;
use hmac::Mac;
use crate::config::spec_check_branch;
use crate::repo::Repo;
use crate::util::{bytes_eq, str_eq};

verus! {

/// A byte is an ASCII hex digit (either case).
pub open spec fn is_hex_digit(b: u8) -> bool {
    (48 <= b <= 57) || (97 <= b <= 102) || (65 <= b <= 70)
}

/// The value of one hex digit.
pub open spec fn hex_val(b: u8) -> u8
    recommends
        is_hex_digit(b),
{
    if 48 <= b <= 57 {
        (b - 48) as u8
    } else if 97 <= b <= 102 {
        (b - 87) as u8
    } else {
        (b - 55) as u8
    }
}

/// A byte string that decodes as hex: even length, digits throughout.
pub open spec fn valid_hex(s: Seq<u8>) -> bool {
    s.len() % 2 == 0 && (forall|i: int| 0 <= i < s.len() ==> is_hex_digit(s[i]))
}

/// What a hex string decodes to: two digits to a byte, high digit first.
pub open spec fn hex_decode_spec(s: Seq<u8>) -> Seq<u8>
    decreases s.len(),
{
    if s.len() < 2 {
        Seq::empty()
    } else {
        seq![(hex_val(s[0]) * 16 + hex_val(s[1])) as u8] + hex_decode_spec(s.skip(2))
    }
}

/// Relies on hex::decode: even-length strings of hex digits (either case)
/// decode two digits to a byte, high digit first; an odd length or any
/// other byte fails.
#[verifier::external_body]
fn hex_decode(s: &[u8]) -> (r: Option<Vec<u8>>)
    ensures
        r is Some <==> valid_hex(s@),
        r matches Some(v) ==> v@ == hex_decode_spec(s@),
{
    hex::decode(s).ok()
}

/// The tag that HMAC-SHA1 assigns to a message under a key.
pub uninterp spec fn hmac_sha1_of(key: Seq<u8>, msg: Seq<u8>) -> Seq<u8>;

/// Relies on hmac's Hmac over sha1's Sha1 (HMAC per RFC 2104): the tag is a
/// function of the key and message bytes alone, is 20 bytes long (SHA-1's
/// output size), and a key of any length is accepted.
#[verifier::external_body]
fn hmac_sha1_tag(key: &[u8], msg: &[u8]) -> (r: Vec<u8>)
    ensures
        r@ == hmac_sha1_of(key@, msg@),
        r@.len() == 20,
{
    let mut mac = <hmac::Hmac<sha1::Sha1> as Mac>::new_from_slice(key).expect(
        "HMAC accepts a key of any size",
    );
    mac.update(msg);
    mac.finalize().into_bytes().to_vec()
}

/// What a push payload declares as its ref: the outer option is the parse
/// outcome (`None` for a body that is not valid JSON), the inner one the
/// string under the payload's "ref" key, absent when there is no such
/// string.
pub uninterp spec fn json_push_ref(body: Seq<char>) -> Option<Option<Seq<char>>>;

/// The view under which the parsed ref is stated.
pub open spec fn push_ref_view(r: Option<Option<String>>) -> Option<Option<Seq<char>>> {
    match r {
        None => None,
        Some(None) => Some(None),
        Some(Some(s)) => Some(Some(s@)),
    }
}

/// Relies on json::parse and JsonValue::as_str: whether the body is valid
/// JSON, and the string (if any) under its "ref" key, depend on the body
/// text alone; indexing a missing key or a non-object yields a null value,
/// for which as_str is absent.
#[verifier::external_body]
fn parse_push_ref(body: &str) -> (r: Option<Option<String>>)
    ensures
        push_ref_view(r) == json_push_ref(body@),
{
    match json::parse(body) {
        Ok(payload) => Some(payload["ref"].as_str().map(|s| s.to_owned())),
        Err(_) => None,
    }
}

/// How a webhook request is answered.
#[derive(Clone, Copy, Debug, PartialEq, Eq, Structural)]
pub enum HookResponse {
    /// Signature or token missing or mismatched.
    Unauthorized,
    /// Unsupported event type, or a body that is not valid JSON.
    BadRequest,
    /// Accepted, but no update is triggered (a ping, or a push to some
    /// other branch while branch matching is on).
    NoTrigger,
    /// Accepted; the repository is submitted for an update.
    Trigger,
}

impl HookResponse {
    /// The HTTP status the response surfaces as.
    pub fn status_code(&self) -> (c: u16)
        ensures
            *self == HookResponse::Unauthorized ==> c == 401,
            *self == HookResponse::BadRequest ==> c == 400,
            (*self == HookResponse::NoTrigger || *self == HookResponse::Trigger) ==> c == 200,
    {
        match self {
            HookResponse::Unauthorized => 401,
            HookResponse::BadRequest => 400,
            HookResponse::NoTrigger => 200,
            HookResponse::Trigger => 200,
        }
    }
}

/// The signature header opens with the ASCII bytes of "sha1=".
pub open spec fn has_sha1_prefix(s: Seq<u8>) -> bool {
    s.len() >= 5 && s[0] == 115 && s[1] == 104 && s[2] == 97 && s[3] == 49 && s[4] == 61
}

/// A GitHub request passes authentication: no secret is configured, or the
/// signature header carries "sha1=" followed by the hex encoding of the
/// body's HMAC-SHA1 tag under that secret.
pub open spec fn spec_github_auth(
    secret: Option<Seq<u8>>,
    sig_header: Option<Seq<u8>>,
    body_bytes: Seq<u8>,
) -> bool {
    match secret {
        None => true,
        Some(key) => {
            &&& sig_header matches Some(s)
            &&& has_sha1_prefix(s)
            &&& valid_hex(s.skip(5))
            &&& hex_decode_spec(s.skip(5)) == hmac_sha1_of(key, body_bytes)
        },
    }
}

/// The answer to a GitHub webhook request: a failed signature check is
/// rejected as unauthorized; then only "ping" (accepted, no trigger) and
/// "push" events are allowed; a push's body must be valid JSON; and with
/// branch matching on (its default) the payload's ref must equal the
/// configured remote ref, else the event is accepted without triggering.
pub open spec fn spec_github(
    secret: Option<Seq<u8>>,
    check_branch: Option<bool>,
    sig_header: Option<Seq<u8>>,
    event: Option<Seq<char>>,
    body: Seq<char>,
    remote_ref: Seq<char>,
) -> HookResponse {
    if !spec_github_auth(secret, sig_header, vstd::utf8::encode_utf8(body)) {
        HookResponse::Unauthorized
    } else {
        match event {
            None => HookResponse::BadRequest,
            Some(ev) => if ev == "ping"@ {
                HookResponse::NoTrigger
            } else if ev != "push"@ {
                HookResponse::BadRequest
            } else {
                match json_push_ref(body) {
                    None => HookResponse::BadRequest,
                    Some(rref) => if spec_check_branch(check_branch) && !(rref matches Some(r)
                        && r == remote_ref) {
                        HookResponse::NoTrigger
                    } else {
                        HookResponse::Trigger
                    },
                }
            },
        }
    }
}

/// The view of an optional byte-slice argument.
pub open spec fn opt_bytes(o: Option<&[u8]>) -> Option<Seq<u8>> {
    match o {
        None => None,
        Some(b) => Some(b@),
    }
}

/// The view of an optional string-slice argument.
pub open spec fn opt_chars(o: Option<&str>) -> Option<Seq<char>> {
    match o {
        None => None,
        Some(s) => Some(s@),
    }
}

/// Answer a GitHub webhook request. `secret` is the configured shared
/// secret, already resolved; `signature_header` and `event_header` are the
/// raw X-Hub-Signature and X-GitHub-Event header values; `remote_ref` is
/// the repository's fully-qualified remote ref.
pub fn github_evaluate(
    secret: Option<&[u8]>,
    check_branch: Option<bool>,
    signature_header: Option<&[u8]>,
    event_header: Option<&str>,
    body: &str,
    remote_ref: &str,
) -> (r: HookResponse)
    ensures
        r == spec_github(
            opt_bytes(secret),
            check_branch,
            opt_bytes(signature_header),
            opt_chars(event_header),
            body@,
            remote_ref@,
        ),
{
    let auth_ok: bool = match secret {
        None => true,
        Some(key) => {
            match signature_header {
                None => false,
                Some(sig) => {
                    if sig.len() < 5 {
                        false
                    } else if !(*vstd::slice::slice_index_get(sig, 0) == 115u8
                        && *vstd::slice::slice_index_get(sig, 1) == 104u8
                        && *vstd::slice::slice_index_get(sig, 2) == 97u8
                        && *vstd::slice::slice_index_get(sig, 3) == 49u8
                        && *vstd::slice::slice_index_get(sig, 4) == 61u8) {
                        false
                    } else {
                        let tail = vstd::slice::slice_subrange(sig, 5, sig.len());
                        match hex_decode(tail) {
                            None => false,
                            Some(decoded) => {
                                let tag = hmac_sha1_tag(key, body.as_bytes());
                                proof {
                                    assert(tail@ =~= sig@.skip(5));
                                }
                                bytes_eq(decoded.as_slice(), tag.as_slice())
                            },
                        }
                    }
                },
            }
        },
    };
    if !auth_ok {
        return HookResponse::Unauthorized;
    }
    match event_header {
        None => HookResponse::BadRequest,
        Some(ev) => {
            if str_eq(ev, "ping") {
                HookResponse::NoTrigger
            } else if !str_eq(ev, "push") {
                HookResponse::BadRequest
            } else {
                match parse_push_ref(body) {
                    None => HookResponse::BadRequest,
                    Some(rref) => {
                        let matches_branch = match &rref {
                            Some(r) => str_eq(r.as_str(), remote_ref),
                            None => false,
                        };
                        if crate::config::check_branch_effective(&check_branch)
                            && !matches_branch {
                            HookResponse::NoTrigger
                        } else {
                            HookResponse::Trigger
                        }
                    },
                }
            }
        },
    }
}

/// A GitLab request passes authentication: no token is configured, or the
/// token header matches it byte for byte.
pub open spec fn spec_gitlab_auth(token: Option<Seq<u8>>, header: Option<Seq<u8>>) -> bool {
    match token {
        None => true,
        Some(t) => header matches Some(h) && h == t,
    }
}

/// The answer to a GitLab webhook request: a failed token check is rejected
/// as unauthorized; only "Push Hook" and "Push Event" events are allowed;
/// then the same body and branch-match rules as for GitHub apply.
pub open spec fn spec_gitlab(
    token: Option<Seq<u8>>,
    check_branch: Option<bool>,
    token_header: Option<Seq<u8>>,
    event: Option<Seq<char>>,
    body: Seq<char>,
    remote_ref: Seq<char>,
) -> HookResponse {
    if !spec_gitlab_auth(token, token_header) {
        HookResponse::Unauthorized
    } else {
        match event {
            None => HookResponse::BadRequest,
            Some(ev) => if ev != "Push Hook"@ && ev != "Push Event"@ {
                HookResponse::BadRequest
            } else {
                match json_push_ref(body) {
                    None => HookResponse::BadRequest,
                    Some(rref) => if spec_check_branch(check_branch) && !(rref matches Some(r)
                        && r == remote_ref) {
                        HookResponse::NoTrigger
                    } else {
                        HookResponse::Trigger
                    },
                }
            },
        }
    }
}

/// Answer a GitLab webhook request. `token` is the configured shared token,
/// already resolved; `token_header` and `event_header` are the raw
/// X-Gitlab-Token and X-Gitlab-Event header values.
pub fn gitlab_evaluate(
    token: Option<&[u8]>,
    check_branch: Option<bool>,
    token_header: Option<&[u8]>,
    event_header: Option<&str>,
    body: &str,
    remote_ref: &str,
) -> (r: HookResponse)
    ensures
        r == spec_gitlab(
            opt_bytes(token),
            check_branch,
            opt_bytes(token_header),
            opt_chars(event_header),
            body@,
            remote_ref@,
        ),
{
    let auth_ok: bool = match token {
        None => true,
        Some(t) => {
            match token_header {
                None => false,
                Some(h) => bytes_eq(h, t),
            }
        },
    };
    if !auth_ok {
        return HookResponse::Unauthorized;
    }
    match event_header {
        None => HookResponse::BadRequest,
        Some(ev) => {
            if !str_eq(ev, "Push Hook") && !str_eq(ev, "Push Event") {
                HookResponse::BadRequest
            } else {
                match parse_push_ref(body) {
                    None => HookResponse::BadRequest,
                    Some(rref) => {
                        let matches_branch = match &rref {
                            Some(r) => str_eq(r.as_str(), remote_ref),
                            None => false,
                        };
                        if crate::config::check_branch_effective(&check_branch)
                            && !matches_branch {
                            HookResponse::NoTrigger
                        } else {
                            HookResponse::Trigger
                        }
                    },
                }
            }
        },
    }
}

/// Answer a plain webhook request: any POST triggers, without validation.
pub fn plain_evaluate() -> (r: HookResponse)
    ensures
        r == HookResponse::Trigger,
{
    HookResponse::Trigger
}

/// Find the repository a webhook path names: the first unit whose name
/// equals the path, as the server's router does.
pub fn find_by_name(repos: &Vec<Repo>, name: &str) -> (r: Option<usize>)
    ensures
        r matches Some(i) ==> 0 <= i < repos@.len() && repos@[i as int].name@ == name@ && (
        forall|j: int| 0 <= j < i ==> repos@[j].name@ != name@),
        r is None ==> forall|j: int| 0 <= j < repos@.len() ==> repos@[j].name@ != name@,
{
    let mut i: usize = 0;
    while i < repos.len()
        invariant
            i <= repos@.len(),
            forall|j: int| 0 <= j < i ==> repos@[j].name@ != name@,
        decreases repos@.len() - i,
    {
        if str_eq(repos[i].name.as_str(), name) {
            return Some(i);
        }
        i += 1;
    }
    None
}

/// An even-length hex string decodes to one byte per digit pair.
pub proof fn lemma_hex_decode_len(s: Seq<u8>)
    requires
        s.len() % 2 == 0,
    ensures
        hex_decode_spec(s).len() == s.len() / 2,
    decreases s.len(),
{
    if s.len() >= 2 {
        lemma_hex_decode_len(s.skip(2));
    }
}

/// Each decoded byte is its pair of digits, high digit first.
pub proof fn lemma_hex_decode_index(s: Seq<u8>, j: int)
    requires
        s.len() % 2 == 0,
        0 <= j,
        2 * j < s.len(),
    ensures
        hex_decode_spec(s).len() == s.len() / 2,
        hex_decode_spec(s)[j] == (hex_val(s[2 * j]) * 16 + hex_val(s[2 * j + 1])) as u8,
    decreases s.len(),
{
    lemma_hex_decode_len(s);
    if j > 0 {
        lemma_hex_decode_index(s.skip(2), j - 1);
        assert(s.skip(2)[2 * (j - 1)] == s[2 * j]);
        assert(s.skip(2)[2 * (j - 1) + 1] == s[2 * j + 1]);
    }
}

/// Changing one digit of a hex string to a digit with a different value
/// changes what it decodes to: hex decoding is injective up to digit case.
pub proof fn lemma_hex_flip_changes_decode(s1: Seq<u8>, s2: Seq<u8>, i: int)
    requires
        valid_hex(s1),
        valid_hex(s2),
        s1.len() == s2.len(),
        0 <= i < s1.len(),
        hex_val(s1[i]) != hex_val(s2[i]),
        forall|k: int| 0 <= k < s1.len() && k != i ==> s1[k] == s2[k],
    ensures
        hex_decode_spec(s1) != hex_decode_spec(s2),
{
    let j = i / 2;
    lemma_hex_decode_index(s1, j);
    lemma_hex_decode_index(s2, j);
    assert(2 * j == i || 2 * j + 1 == i);
    assert(is_hex_digit(s1[2 * j]) && is_hex_digit(s1[2 * j + 1]));
    assert(is_hex_digit(s2[2 * j]) && is_hex_digit(s2[2 * j + 1]));
    assert(hex_decode_spec(s1)[j] != hex_decode_spec(s2)[j]);
}

/// Signature verification, accepting side: with a secret configured, a
/// request whose signature header is "sha1=" followed by a hex encoding of
/// the body's HMAC-SHA1 tag under that secret is never rejected as
/// unauthorized.
pub proof fn lemma_correct_signature_accepted(
    key: Seq<u8>,
    sig: Seq<u8>,
    check_branch: Option<bool>,
    event: Option<Seq<char>>,
    body: Seq<char>,
    remote_ref: Seq<char>,
)
    requires
        has_sha1_prefix(sig),
        valid_hex(sig.skip(5)),
        hex_decode_spec(sig.skip(5)) == hmac_sha1_of(key, vstd::utf8::encode_utf8(body)),
    ensures
        spec_github(Some(key), check_branch, Some(sig), event, body, remote_ref)
            != HookResponse::Unauthorized,
{
}

/// Signature verification, rejecting side: take an accepted request and
/// flip one byte of its signature header so that the byte's digit value
/// changes (a flip inside "sha1=", a flip to a non-digit, and a flip that
/// changes a digit's value all qualify; only recasing a digit, such as 'a'
/// to 'A', does not): the request is rejected as unauthorized.
pub proof fn lemma_flipped_signature_rejected(
    key: Seq<u8>,
    sig1: Seq<u8>,
    sig2: Seq<u8>,
    i: int,
    check_branch: Option<bool>,
    event: Option<Seq<char>>,
    body: Seq<char>,
    remote_ref: Seq<char>,
)
    requires
        spec_github_auth(Some(key), Some(sig1), vstd::utf8::encode_utf8(body)),
        sig2.len() == sig1.len(),
        0 <= i < sig2.len(),
        forall|k: int| 0 <= k < sig2.len() && k != i ==> sig2[k] == sig1[k],
        sig2[i] != sig1[i],
        i >= 5 ==> !(is_hex_digit(sig2[i]) && hex_val(sig2[i]) == hex_val(sig1[i])),
    ensures
        spec_github(Some(key), check_branch, Some(sig2), event, body, remote_ref)
            == HookResponse::Unauthorized,
{
    if i < 5 {
        assert(!has_sha1_prefix(sig2));
    } else {
        let t1 = sig1.skip(5);
        let t2 = sig2.skip(5);
        assert(t1.len() == t2.len());
        assert(forall|k: int| 0 <= k < t2.len() && k != i - 5 ==> t2[k] == t1[k]);
        assert(t2[i - 5] == sig2[i] && t1[i - 5] == sig1[i]);
        if is_hex_digit(sig2[i]) {
            if valid_hex(t2) {
                lemma_hex_flip_changes_decode(t1, t2, i - 5);
            }
        } else {
            assert(!valid_hex(t2));
        }
    }
}

/// Branch-match filtering for GitHub: an otherwise accepted push whose
/// payload ref differs from the configured remote ref never triggers while
/// `check_branch` is on (its default), and the same request does trigger
/// once `check_branch` is off.
pub proof fn lemma_branch_filter_github(
    secret: Option<Seq<u8>>,
    sig_header: Option<Seq<u8>>,
    body: Seq<char>,
    remote_ref: Seq<char>,
    rref: Option<Seq<char>>,
)
    requires
        spec_github_auth(secret, sig_header, vstd::utf8::encode_utf8(body)),
        json_push_ref(body) == Some(rref),
        !(rref matches Some(r) && r == remote_ref),
    ensures
        spec_github(secret, Some(true), sig_header, Some("push"@), body, remote_ref)
            == HookResponse::NoTrigger,
        spec_github(secret, None, sig_header, Some("push"@), body, remote_ref)
            == HookResponse::NoTrigger,
        spec_github(secret, Some(false), sig_header, Some("push"@), body, remote_ref)
            == HookResponse::Trigger,
{
    reveal_strlit("push");
    reveal_strlit("ping");
    assert("push"@[1] == 'u' && "ping"@[1] == 'i');
    assert("push"@ != "ping"@);
}

/// Branch-match filtering for GitLab, under either accepted event name.
pub proof fn lemma_branch_filter_gitlab(
    token: Option<Seq<u8>>,
    token_header: Option<Seq<u8>>,
    event: Seq<char>,
    body: Seq<char>,
    remote_ref: Seq<char>,
    rref: Option<Seq<char>>,
)
    requires
        spec_gitlab_auth(token, token_header),
        event == "Push Hook"@ || event == "Push Event"@,
        json_push_ref(body) == Some(rref),
        !(rref matches Some(r) && r == remote_ref),
    ensures
        spec_gitlab(token, Some(true), token_header, Some(event), body, remote_ref)
            == HookResponse::NoTrigger,
        spec_gitlab(token, None, token_header, Some(event), body, remote_ref)
            == HookResponse::NoTrigger,
        spec_gitlab(token, Some(false), token_header, Some(event), body, remote_ref)
            == HookResponse::Trigger,
{
}

} // verus!
