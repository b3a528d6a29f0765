//! Who makes a request, and what they may do.

use vstd::prelude::*;
use vstd::utf8::encode_utf8_decode_utf8;

verus! {

/// An authenticated caller: the key it presented and its roles.
#[derive(Debug, Clone, PartialEq, Eq)]
pub struct Principal {
    pub api_key: String,
    pub roles: Vec<String>,
}

/// The contents of a `Principal` as plain values.
pub struct PrincipalView {
    pub api_key: Seq<char>,
    pub roles: Seq<Seq<char>>,
}

impl View for Principal {
    type V = PrincipalView;

    open spec fn view(&self) -> PrincipalView {
        PrincipalView { api_key: self.api_key@, roles: self.roles.deep_view() }
    }
}

/// Why a caller was refused.
#[derive(Debug, PartialEq, Eq)]
pub enum AuthError {
    InvalidToken,
    Unauthorized,
}

/// Tells who presents a token.
pub trait AuthenticationService: Send + Sync {
    /// Whether the service accepts `token`.
    spec fn accepts(&self, token: Seq<char>) -> bool;

    /// The principal that an accepted `token` stands for.
    spec fn principal_for(&self, token: Seq<char>) -> PrincipalView;

    /// The principal of `token` when the service accepts it.
    fn authenticate(&self, token: &str) -> (r: Result<Principal, AuthError>)
        ensures
            r is Ok <==> self.accepts(token@),
            r matches Ok(p) ==> p@ == self.principal_for(token@);
}

/// Tells whether a caller may perform an action.
pub trait AuthorizationService: Send + Sync {
    /// Whether `principal` may perform `action`.
    spec fn permits(&self, principal: PrincipalView, action: Seq<char>) -> bool;

    /// Succeeds when `principal` may perform `action`.
    fn authorize(&self, principal: &Principal, action: &str) -> (r: Result<(), AuthError>)
        ensures
            r is Ok <==> self.permits(principal@, action@);
}

/// Whether the byte `x` and `y` agree is folded into `acc`: the result is 0
/// exactly when `acc` was 0 and the bytes are equal.
proof fn lemma_fold_byte(acc: u8, x: u8, y: u8)
    ensures
        (acc | (x ^ y)) == 0 <==> (acc == 0 && x == y),
{
    assert((acc | (x ^ y)) == 0 <==> (acc == 0 && x == y)) by (bit_vector);
}

/// Compares two byte slices in time that depends only on their lengths.
pub fn constant_time_eq(a: &[u8], b: &[u8]) -> (r: bool)
    ensures
        r == (a@ == b@),
{
    if a.len() != b.len() {
        return false;
    }
    let mut acc: u8 = 0;
    let mut i: usize = 0;
    while i < a.len()
        invariant
            a@.len() == b@.len(),
            i <= a@.len(),
            (acc == 0) <==> (a@.subrange(0, i as int) =~= b@.subrange(0, i as int)),
        decreases a@.len() - i,
    {
        proof {
            lemma_fold_byte(acc, a@[i as int], b@[i as int]);
            assert(a@.subrange(0, i + 1) == a@.subrange(0, i as int).push(a@[i as int]));
            assert(b@.subrange(0, i + 1) == b@.subrange(0, i as int).push(b@[i as int]));
            if a@.subrange(0, i + 1) =~= b@.subrange(0, i + 1) {
                assert(a@.subrange(0, i + 1)[i as int] == b@.subrange(0, i + 1)[i as int]);
                assert(a@.subrange(0, i as int) =~= a@.subrange(0, i + 1).drop_last());
                assert(b@.subrange(0, i as int) =~= b@.subrange(0, i + 1).drop_last());
            }
        }
        acc = acc | (a[i] ^ b[i]);
        i = i + 1;
    }
    assert(a@.subrange(0, a@.len() as int) =~= a@);
    assert(b@.subrange(0, b@.len() as int) =~= b@);
    acc == 0
}

/// Accepts exactly one API key, given when the service is made.
pub struct StaticApiKeyService {
    pub valid_api_key: String,
}

impl AuthenticationService for StaticApiKeyService {
    /// Exactly the valid key is accepted.
    open spec fn accepts(&self, token: Seq<char>) -> bool {
        token == self.valid_api_key@
    }

    /// The principal carries the token and the single role `admin`.
    open spec fn principal_for(&self, token: Seq<char>) -> PrincipalView {
        PrincipalView { api_key: token, roles: seq!["admin"@] }
    }

    /// Accepts `token` when it is the valid key, compared in constant time; the
    /// principal carries the token and the single role `admin`.
    fn authenticate(&self, token: &str) -> (r: Result<Principal, AuthError>)
        ensures
            r is Ok <==> token@ == self.valid_api_key@,
            r matches Ok(p) ==> p.api_key@ == token@ && p.roles@.len() == 1 && p.roles@[0]@ == "admin"@,
            r matches Err(e) ==> e == AuthError::InvalidToken,
    {
        let key = self.valid_api_key.as_str();
        proof {
            encode_utf8_decode_utf8(token@);
            encode_utf8_decode_utf8(key@);
        }
        if constant_time_eq(token.as_bytes(), key.as_bytes()) {
            let roles = vec![String::from_str("admin")];
            assert(roles.deep_view() =~= seq!["admin"@]);
            Ok(Principal { api_key: String::from_str(token), roles })
        } else {
            Err(AuthError::InvalidToken)
        }
    }
}

/// Lets every caller perform every action.
pub struct AllowAllAuthorizationService;

impl AuthorizationService for AllowAllAuthorizationService {
    /// Every action is permitted.
    open spec fn permits(&self, principal: PrincipalView, action: Seq<char>) -> bool {
        true
    }

    fn authorize(&self, principal: &Principal, action: &str) -> (r: Result<(), AuthError>)
        ensures
            r is Ok,
    {
        Ok(())
    }
}

} // verus!
