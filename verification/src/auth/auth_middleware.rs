//! From the `Authorization` header of a request to an access level.
//!
//! The middleware never refuses a request. A missing or malformed header, an
//! unknown key and a token that does not verify all give the anonymous
//! level; what an anonymous caller may do is decided by each method.

use vstd::prelude::*;
use crate::auth::access_level::{AccessLevel, AccessLevelView};
use crate::auth::jwt::{current_timestamp, JwtSigner};

verus! {

/// `dashmap::DashSet`, a concurrent hash set. What it holds is spoken of
/// through `admin_keys`.
#[verifier::external_type_specification]
#[verifier::external_body]
#[verifier::reject_recursive_types(K)]
#[verifier::reject_recursive_types(S)]
pub struct ExDashSet<K, S>(dashmap::DashSet<K, S>);

/// The strings that a set of administrator keys holds.
pub uninterp spec fn admin_keys(set: dashmap::DashSet<String>) -> Set<Seq<char>>;

/// The token that the `headers` crate reads in the value of an
/// `Authorization` header as a `Bearer` credential; `None` where it reads
/// none.
pub uninterp spec fn bearer_token(header: Seq<u8>) -> Option<Seq<char>>;

/// `dashmap::DashSet::new`: a set without elements.
#[verifier::external_body]
fn key_set_new() -> (res: dashmap::DashSet<String>)
    ensures
        admin_keys(res) == Set::<Seq<char>>::empty(),
{
    dashmap::DashSet::new()
}

/// `dashmap::DashSet::insert`: the set holds the key afterwards, and what
/// it held before.
#[verifier::external_body]
fn key_set_insert(set: &mut dashmap::DashSet<String>, key: String)
    ensures
        admin_keys(*final(set)) == admin_keys(*old(set)).insert(key@),
{
    set.insert(key);
}

/// `dashmap::DashSet::contains`: whether the set holds the key.
#[verifier::external_body]
fn key_set_contains(set: &dashmap::DashSet<String>, key: &str) -> (res: bool)
    ensures
        res == admin_keys(*set).contains(key@),
{
    set.contains(key)
}

/// `headers::HeaderMapExt::typed_get` for `Authorization<Bearer>`, on a
/// header map that holds `header` as its only `Authorization` value, and
/// `token` of what it finds. A value that is no header value gives `None`.
#[verifier::external_body]
fn parse_bearer(header: &[u8]) -> (res: Option<String>)
    ensures
        match res {
            Some(token) => bearer_token(header@) == Some(token@),
            None => bearer_token(header@) is None,
        },
{
    let mut map = http::HeaderMap::new();
    map.insert(http::header::AUTHORIZATION, http::HeaderValue::from_bytes(header).ok()?);
    let found: headers::Authorization<headers::authorization::Bearer> =
        headers::HeaderMapExt::typed_get(&map)?;
    Some(found.token().to_owned())
}

/// The strings of a list, as a set.
pub open spec fn spec_key_set(keys: Seq<String>) -> Set<Seq<char>> {
    Set::new(|k: Seq<char>| exists|i: int| 0 <= i < keys.len() && (#[trigger] keys[i])@ == k)
}

/// The bytes of a header value, if there is one.
pub open spec fn spec_header(authorization: Option<&[u8]>) -> Option<Seq<u8>> {
    match authorization {
        Some(value) => Some(value@),
        None => None,
    }
}

/// The access level that a request earns at the time `now`: none without a
/// bearer token, full with an administrator key, and that of the
/// account named in a token that verifies.
pub open spec fn spec_access(
    signer: JwtSigner,
    keys: Set<Seq<char>>,
    header: Option<Seq<u8>>,
    now: u64,
) -> AccessLevelView {
    match header {
        None => AccessLevelView::Anonymous,
        Some(value) => match bearer_token(value) {
            None => AccessLevelView::Anonymous,
            Some(token) => spec_token_access(signer, keys, token, now),
        },
    }
}

/// The access level that a bearer token earns at the time `now`.
pub open spec fn spec_token_access(
    signer: JwtSigner,
    keys: Set<Seq<char>>,
    token: Seq<char>,
    now: u64,
) -> AccessLevelView {
    if keys.contains(token) {
        AccessLevelView::Full
    } else {
        match signer.spec_decode(token, now) {
            Ok((address, _)) => AccessLevelView::Basic(address),
            Err(_) => AccessLevelView::Anonymous,
        }
    }
}

/// Resolves the credential of each request to an access level.
pub struct AuthenticationMiddleware {
    jwt: JwtSigner,
    api_keys: dashmap::DashSet<String>,
}

impl AuthenticationMiddleware {
    /// The signer whose tokens are accepted.
    pub closed spec fn signer(&self) -> JwtSigner {
        self.jwt
    }

    /// The administrator keys.
    pub closed spec fn keys(&self) -> Set<Seq<char>> {
        admin_keys(self.api_keys)
    }

    /// A middleware that accepts the tokens of `jwt` and the given
    /// administrator keys.
    pub fn new(jwt: JwtSigner, api_keys: Vec<String>) -> (res: AuthenticationMiddleware)
        ensures
            res.signer() == jwt,
            res.keys() == spec_key_set(api_keys@),
    {
        let mut set = key_set_new();
        let mut i: usize = 0;
        while i < api_keys.len()
            invariant
                i <= api_keys.len(),
                admin_keys(set) == spec_key_set(api_keys@.take(i as int)),
            decreases api_keys.len() - i,
        {
            key_set_insert(&mut set, api_keys[i].clone());
            proof {
                let before = api_keys@.take(i as int);
                let after = api_keys@.take(i as int + 1);
                assert(after[i as int] == api_keys@[i as int]);
                assert forall|k: Seq<char>|
                    spec_key_set(after).contains(k) <==> spec_key_set(before).insert(
                        api_keys@[i as int]@,
                    ).contains(k) by {
                    if spec_key_set(before).contains(k) {
                        let j = choose|j: int| 0 <= j < before.len() && (#[trigger] before[j])@ == k;
                        assert(after[j] == before[j]);
                    }
                    if spec_key_set(after).contains(k) {
                        let j = choose|j: int| 0 <= j < after.len() && (#[trigger] after[j])@ == k;
                        if j < i {
                            assert(before[j] == after[j]);
                        }
                    }
                }
                assert(spec_key_set(after) =~= spec_key_set(before).insert(api_keys@[i as int]@));
            }
            i += 1;
        }
        proof {
            assert(api_keys@.take(api_keys.len() as int) =~= api_keys@);
        }
        AuthenticationMiddleware { jwt, api_keys: set }
    }

    /// The access level of a bearer token at the time `now`.
    pub fn token_access_at(&self, token: &str, now: u64) -> (res: AccessLevel)
        ensures
            res@ == spec_token_access(self.signer(), self.keys(), token@, now),
    {
        if key_set_contains(&self.api_keys, token) {
            return AccessLevel::Full;
        }
        match self.jwt.decode_token_at(token, now) {
            Ok(claims) => AccessLevel::Basic(claims.address),
            Err(_) => AccessLevel::Anonymous,
        }
    }

    /// The access level of a request at the time `now`, from the value of
    /// its `Authorization` header, if it has one.
    pub fn authenticate_user_at(&self, authorization: Option<&[u8]>, now: u64) -> (res:
        AccessLevel)
        ensures
            res@ == spec_access(self.signer(), self.keys(), spec_header(authorization), now),
    {
        let value = match authorization {
            Some(value) => value,
            None => {
                return AccessLevel::Anonymous;
            },
        };
        match parse_bearer(value) {
            Some(token) => self.token_access_at(token.as_str(), now),
            None => AccessLevel::Anonymous,
        }
    }

    /// The access level of a request at the current time.
    pub fn authenticate_user(&self, authorization: Option<&[u8]>) -> (res: AccessLevel)
        ensures
            exists|now: u64|
                res@ == #[trigger] spec_access(
                    self.signer(),
                    self.keys(),
                    spec_header(authorization),
                    now,
                ),
    {
        let now = current_timestamp();
        self.authenticate_user_at(authorization, now)
    }
}

} // verus!
