//! Bearer tokens: HS256 JSON Web Tokens signed under one of several keys.
//!
//! Every key has an identifier (`kid`). One identifier is the default: new
//! tokens are signed under it and carry it in their header. A token is
//! checked under the key that its header names, so that keys can be rotated
//! without invalidating the tokens that are still in use.

use vstd::prelude::*;
use vstd::string::StringExecFns;
use crate::address::Address;

verus! {

/// Seconds by which a token may be past its expiry and still be accepted.
pub const EXPIRY_LEEWAY_SECS: u64 = 60;

/// What a token states about its holder.
#[derive(Clone, Debug, PartialEq)]
pub struct UserClaims {
    /// The account that the holder controls.
    pub address: Address,
    /// The last second at which the token is valid, in Unix time.
    pub exp: usize,
}

/// One signing key, as it is configured.
#[derive(Clone, Debug)]
pub struct JwtSignerKeyConfig {
    pub kid: String,
    pub secret: String,
}

/// One signing key, as the signer holds it.
struct KeyEntry {
    kid: String,
    secret: String,
}

/// Why a signer could not be built, or a token not issued or accepted.
#[derive(Clone, Debug)]
pub enum JwtError {
    /// The default key identifier names no configured key.
    DefaultKidNotFound(String),
    /// The signer holds no key under its default identifier.
    SigningKeyNotFound,
    /// The token could not be encoded or signed.
    Encoding,
    /// The token's header could not be read.
    MalformedToken,
    /// The token's header names no key.
    MissingKid,
    /// The token's header names a key that the signer does not hold.
    UnknownKid(String),
    /// The signature or the claims were rejected.
    InvalidToken,
    /// The token is past its expiry by more than the leeway.
    Expired,
}

/// `JwtError` with its strings as sequences.
pub enum JwtErrorView {
    DefaultKidNotFound(Seq<char>),
    SigningKeyNotFound,
    Encoding,
    MalformedToken,
    MissingKid,
    UnknownKid(Seq<char>),
    InvalidToken,
    Expired,
}

impl View for JwtError {
    type V = JwtErrorView;

    open spec fn view(&self) -> JwtErrorView {
        match self {
            JwtError::DefaultKidNotFound(kid) => JwtErrorView::DefaultKidNotFound(kid@),
            JwtError::SigningKeyNotFound => JwtErrorView::SigningKeyNotFound,
            JwtError::Encoding => JwtErrorView::Encoding,
            JwtError::MalformedToken => JwtErrorView::MalformedToken,
            JwtError::MissingKid => JwtErrorView::MissingKid,
            JwtError::UnknownKid(kid) => JwtErrorView::UnknownKid(kid@),
            JwtError::InvalidToken => JwtErrorView::InvalidToken,
            JwtError::Expired => JwtErrorView::Expired,
        }
    }
}

/// The text of an error, as a sequence of characters.
pub open spec fn spec_error_text(e: JwtErrorView) -> Seq<char> {
    match e {
        JwtErrorView::DefaultKidNotFound(kid) => "default_kid '"@ + kid
            + "' not found in jwt_signer_keys"@,
        JwtErrorView::SigningKeyNotFound => "Current signing key not found"@,
        JwtErrorView::Encoding => "JWT could not be encoded"@,
        JwtErrorView::MalformedToken => "JWT header could not be decoded"@,
        JwtErrorView::MissingKid => "No kid in JWT header"@,
        JwtErrorView::UnknownKid(kid) => "JWT signing key kid "@ + kid + " not found"@,
        JwtErrorView::InvalidToken => "JWT signature or claims are invalid"@,
        JwtErrorView::Expired => "JWT has expired"@,
    }
}

impl JwtError {
    /// The error as text.
    pub fn message(&self) -> (res: String)
        ensures
            res@ == spec_error_text(self@),
    {
        match self {
            JwtError::DefaultKidNotFound(kid) => String::from_str("default_kid '").concat(
                kid.as_str(),
            ).concat("' not found in jwt_signer_keys"),
            JwtError::SigningKeyNotFound => String::from_str("Current signing key not found"),
            JwtError::Encoding => String::from_str("JWT could not be encoded"),
            JwtError::MalformedToken => String::from_str("JWT header could not be decoded"),
            JwtError::MissingKid => String::from_str("No kid in JWT header"),
            JwtError::UnknownKid(kid) => String::from_str("JWT signing key kid ").concat(
                kid.as_str(),
            ).concat(" not found"),
            JwtError::InvalidToken => String::from_str("JWT signature or claims are invalid"),
            JwtError::Expired => String::from_str("JWT has expired"),
        }
    }
}

/// A key set as a sequence of `(kid, secret)` pairs, in configuration order.
pub type KeySeq = Seq<(Seq<char>, Seq<char>)>;

/// The secret that a key set holds for `kid`: that of the last pair with this
/// identifier, as a later entry replaces an earlier one.
pub open spec fn spec_lookup(keys: KeySeq, kid: Seq<char>) -> Option<Seq<char>>
    decreases keys.len(),
{
    if keys.len() == 0 {
        None
    } else if keys.last().0 == kid {
        Some(keys.last().1)
    } else {
        spec_lookup(keys.drop_last(), kid)
    }
}

/// The pairs of a configured key list.
pub open spec fn spec_config_keys(keys: Seq<JwtSignerKeyConfig>) -> KeySeq {
    keys.map_values(|k: JwtSignerKeyConfig| (k.kid@, k.secret@))
}

/// Whether a token is still accepted at `now`: until its expiry, and for the
/// leeway after it.
pub open spec fn spec_in_time(exp: usize, now: u64) -> bool {
    now <= exp + EXPIRY_LEEWAY_SECS
}

/// What `jsonwebtoken::encode` makes of an HS256 header naming `kid` and the
/// claims `{address, exp}`, signed with `secret`: the token, or `None` where
/// it fails.
pub uninterp spec fn hs256_token(
    kid: Seq<char>,
    secret: Seq<char>,
    address: Seq<u8>,
    exp: usize,
) -> Option<Seq<char>>;

/// What `jsonwebtoken::decode_header` reads in a token: `None` where the
/// header cannot be decoded, else the `kid` of the header, if it has one.
pub uninterp spec fn token_kid(token: Seq<char>) -> Option<Option<Seq<char>>>;

/// The claims `(address, exp)` that `jsonwebtoken::decode` accepts in a token
/// under `secret` when the expiry is left unchecked; `None` where it rejects
/// the token.
pub uninterp spec fn hs256_claims(token: Seq<char>, secret: Seq<char>) -> Option<
    (Seq<u8>, usize),
>;

/// Whether `token` reads back as it was meant: it names `kid` in its header
/// and is accepted under `secret` with the claims `address` and `exp`.
pub open spec fn spec_reads_back(
    token: Seq<char>,
    kid: Seq<char>,
    secret: Seq<char>,
    address: Seq<u8>,
    exp: usize,
) -> bool {
    &&& token_kid(token) == Some(Some(kid))
    &&& hs256_claims(token, secret) == Some((address, exp))
}

/// The token that is issued under `kid` and `secret` for `address` and
/// `exp`: the one that the encoder makes, where it makes one that reads
/// back as it was meant; none otherwise.
pub open spec fn spec_token(
    kid: Seq<char>,
    secret: Seq<char>,
    address: Seq<u8>,
    exp: usize,
) -> Option<Seq<char>> {
    match hs256_token(kid, secret, address, exp) {
        Some(token) => if spec_reads_back(token, kid, secret, address, exp) {
            Some(token)
        } else {
            None
        },
        None => None,
    }
}

/// `jsonwebtoken::errors::Error`, carried through without being looked into.
#[verifier::external_type_specification]
#[verifier::external_body]
pub struct ExJwtLibraryError(jsonwebtoken::errors::Error);

/// `jsonwebtoken::encode`, with an HS256 header that names `kid`, the claims
/// `address` (as `0x` and forty hex digits) and `exp`, and `secret` as the
/// HMAC key. What comes back, token or failure, depends on the arguments
/// alone.
#[verifier::external_body]
fn encode_hs256(kid: &str, secret: &str, address: &Address, exp: usize) -> (res: Result<
    String,
    jsonwebtoken::errors::Error,
>)
    ensures
        match res {
            Ok(token) => hs256_token(kid@, secret@, address@, exp) == Some(token@),
            Err(_) => hs256_token(kid@, secret@, address@, exp) is None,
        },
{
    let mut header = jsonwebtoken::Header::default();
    header.kid = Some(kid.to_owned());
    let mut claims = serde_json::Map::new();
    let account = alloy::primitives::Address::from(address.bytes);
    claims.insert("address".to_owned(), serde_json::to_value(account)?);
    claims.insert("exp".to_owned(), serde_json::Value::from(exp));
    jsonwebtoken::encode(&header, &claims, &jsonwebtoken::EncodingKey::from_secret(secret.as_bytes()))
}

/// `jsonwebtoken::decode_header`: the `kid` of the token's header, read
/// without checking the signature.
#[verifier::external_body]
fn decode_kid(token: &str) -> (res: Result<Option<String>, jsonwebtoken::errors::Error>)
    ensures
        match res {
            Ok(Some(kid)) => token_kid(token@) == Some(Some(kid@)),
            Ok(None) => token_kid(token@) == Some(None::<Seq<char>>),
            Err(_) => token_kid(token@) is None,
        },
{
    jsonwebtoken::decode_header(token).map(|header| header.kid)
}

/// `jsonwebtoken::decode` under `secret`, with the crate's default checks
/// (HS256 only, `exp` required) but for the comparison of `exp` with the
/// clock, which is left to the caller. The claims must hold an `address` and
/// an `exp` that parse as such.
#[verifier::external_body]
fn decode_hs256(token: &str, secret: &str) -> (res: Result<UserClaims, jsonwebtoken::errors::Error>)
    ensures
        match res {
            Ok(claims) => hs256_claims(token@, secret@) == Some((claims.address@, claims.exp)),
            Err(_) => hs256_claims(token@, secret@) is None,
        },
{
    let key = jsonwebtoken::DecodingKey::from_secret(secret.as_bytes());
    let mut validation = jsonwebtoken::Validation::default();
    validation.validate_exp = false;
    let data = jsonwebtoken::decode::<serde_json::Value>(token, &key, &validation)?;
    let account: alloy::primitives::Address = serde_json::from_value(data.claims["address"].clone())?;
    let exp: usize = serde_json::from_value(data.claims["exp"].clone())?;
    Ok(UserClaims { address: Address { bytes: account.into_array() }, exp })
}

/// `jsonwebtoken::get_current_timestamp`: the system clock, in seconds of
/// Unix time. Nothing is known of the value.
#[verifier::external_body]
pub(crate) fn current_timestamp() -> u64 {
    jsonwebtoken::get_current_timestamp()
}

impl KeyEntry {
    /// The entry for one configured key.
    fn from(config: &JwtSignerKeyConfig) -> (res: KeyEntry)
        ensures
            res.kid@ == config.kid@,
            res.secret@ == config.secret@,
    {
        KeyEntry { kid: config.kid.clone(), secret: config.secret.clone() }
    }
}

/// The pairs of a list of entries.
spec fn spec_entry_keys(entries: Seq<KeyEntry>) -> KeySeq {
    entries.map_values(|k: KeyEntry| (k.kid@, k.secret@))
}

/// The index of the entry that answers for `kid`, if there is one.
fn find_entry(entries: &Vec<KeyEntry>, kid: &String) -> (res: Option<usize>)
    ensures
        match res {
            Some(i) => i < entries.len() && spec_lookup(spec_entry_keys(entries@), kid@) == Some(
                entries[i as int].secret@,
            ),
            None => spec_lookup(spec_entry_keys(entries@), kid@) is None,
        },
{
    let ghost all = spec_entry_keys(entries@);
    let mut i: usize = entries.len();
    assert(all.take(i as int) =~= all);
    while i > 0
        invariant
            i <= entries.len(),
            all == spec_entry_keys(entries@),
            spec_lookup(all, kid@) == spec_lookup(all.take(i as int), kid@),
        decreases i,
    {
        i -= 1;
        let ghost prefix = all.take(i as int + 1);
        assert(prefix.last() == all[i as int]);
        assert(prefix.drop_last() =~= all.take(i as int));
        if entries[i].kid == *kid {
            return Some(i);
        }
    }
    None
}

/// A copy of a list of entries.
fn copy_entries(entries: &Vec<KeyEntry>) -> (res: Vec<KeyEntry>)
    ensures
        spec_entry_keys(res@) == spec_entry_keys(entries@),
{
    let mut out: Vec<KeyEntry> = Vec::new();
    let mut i: usize = 0;
    while i < entries.len()
        invariant
            i <= entries.len(),
            out.len() == i,
            forall|j: int|
                0 <= j < i ==> out[j].kid@ == entries[j].kid@ && out[j].secret@
                    == entries[j].secret@,
        decreases entries.len() - i,
    {
        out.push(KeyEntry { kid: entries[i].kid.clone(), secret: entries[i].secret.clone() });
        i += 1;
    }
    assert(spec_entry_keys(out@) =~= spec_entry_keys(entries@));
    out
}

/// Issues tokens under its default key and checks them under any of its keys.
pub struct JwtSigner {
    keys: Vec<KeyEntry>,
    default_kid: String,
}

impl JwtSigner {
    /// The keys, in the order in which they were configured.
    pub closed spec fn keys(&self) -> KeySeq {
        spec_entry_keys(self.keys@)
    }

    /// The identifier of the key that signs new tokens.
    pub closed spec fn default_kid(&self) -> Seq<char> {
        self.default_kid@
    }

    /// The default identifier names one of the keys.
    #[verifier::type_invariant]
    pub closed spec fn wf(&self) -> bool {
        spec_lookup(self.keys(), self.default_kid()) is Some
    }

    /// The outcome of checking `token` at the time `now`.
    pub open spec fn spec_decode(&self, token: Seq<char>, now: u64) -> Result<
        (Seq<u8>, usize),
        JwtErrorView,
    > {
        match token_kid(token) {
            None => Err(JwtErrorView::MalformedToken),
            Some(None) => Err(JwtErrorView::MissingKid),
            Some(Some(kid)) => match spec_lookup(self.keys(), kid) {
                None => Err(JwtErrorView::UnknownKid(kid)),
                Some(secret) => match hs256_claims(token, secret) {
                    None => Err(JwtErrorView::InvalidToken),
                    Some((address, exp)) => if spec_in_time(exp, now) {
                        Ok((address, exp))
                    } else {
                        Err(JwtErrorView::Expired)
                    },
                },
            },
        }
    }

    /// The token that this signer issues for `address` and `exp`, if it
    /// issues one: that of its default key.
    pub open spec fn spec_create(&self, address: Seq<u8>, exp: usize) -> Option<Seq<char>> {
        match spec_lookup(self.keys(), self.default_kid()) {
            Some(secret) => spec_token(self.default_kid(), secret, address, exp),
            None => None,
        }
    }

    /// Whether `token` is the one that this signer issues for `address` and
    /// `exp`.
    pub open spec fn spec_issues(&self, token: Seq<char>, address: Seq<u8>, exp: usize) -> bool {
        self.spec_create(address, exp) == Some(token)
    }

    /// Builds a signer from the configured keys. Fails if `default_kid` names
    /// none of them.
    pub fn from_config(keys: &[JwtSignerKeyConfig], default_kid: &str) -> (res: Result<
        JwtSigner,
        JwtError,
    >)
        ensures
            match res {
                Ok(signer) => {
                    &&& signer.keys() == spec_config_keys(keys@)
                    &&& signer.default_kid() == default_kid@
                    &&& spec_lookup(spec_config_keys(keys@), default_kid@) is Some
                },
                Err(e) => {
                    &&& e@ == JwtErrorView::DefaultKidNotFound(default_kid@)
                    &&& spec_lookup(spec_config_keys(keys@), default_kid@) is None
                },
            },
    {
        let mut entries: Vec<KeyEntry> = Vec::new();
        let mut i: usize = 0;
        while i < keys.len()
            invariant
                i <= keys.len(),
                entries.len() == i,
                forall|j: int|
                    0 <= j < i ==> entries[j].kid@ == keys[j].kid@ && entries[j].secret@
                        == keys[j].secret@,
            decreases keys.len() - i,
        {
            entries.push(KeyEntry::from(&keys[i]));
            i += 1;
        }
        let default_kid = String::from_str(default_kid);
        assert(spec_entry_keys(entries@) =~= spec_config_keys(keys@));
        match find_entry(&entries, &default_kid) {
            Some(_) => Ok(JwtSigner { keys: entries, default_kid }),
            None => Err(JwtError::DefaultKidNotFound(default_kid)),
        }
    }
}

/// A decoding outcome with its claims and errors as plain values.
pub open spec fn spec_outcome(res: Result<UserClaims, JwtError>) -> Result<
    (Seq<u8>, usize),
    JwtErrorView,
> {
    match res {
        Ok(claims) => Ok((claims.address@, claims.exp)),
        Err(e) => Err(e@),
    }
}

/// Whether a token with the expiry `exp` is still accepted at `now`.
pub fn in_time(exp: usize, now: u64) -> (res: bool)
    ensures
        res == spec_in_time(exp, now),
{
    let limit: u128 = exp as u128 + EXPIRY_LEEWAY_SECS as u128;
    now as u128 <= limit
}

/// Whether `token` names `kid` in its header and is accepted under
/// `secret` with the claims `address` and `exp`.
fn reads_back(token: &str, kid: &String, secret: &str, address: &Address, exp: usize) -> (res:
    bool)
    ensures
        res == spec_reads_back(token@, kid@, secret@, address@, exp),
{
    let named = match decode_kid(token) {
        Ok(Some(found)) => found == *kid,
        _ => false,
    };
    if !named {
        return false;
    }
    match decode_hs256(token, secret) {
        Ok(claims) => claims.address.same(address) && claims.exp == exp,
        Err(_) => false,
    }
}

impl JwtSigner {
    /// Issues a token for `addr` that expires at `exp`, signed under the
    /// default key and naming it in the header. The token is read back
    /// before it is handed out: one that would not be accepted with the
    /// claims that went in is not issued. A token is issued whenever the
    /// encoder makes one that reads back; the only failure is `Encoding`.
    pub fn create_token(&self, addr: Address, exp: usize) -> (res: Result<String, JwtError>)
        ensures
            match res {
                Ok(token) => self.spec_create(addr@, exp) == Some(token@),
                Err(e) => e@ == JwtErrorView::Encoding && self.spec_create(addr@, exp) is None,
            },
            res is Ok <==> (exists|token: Seq<char>| self.spec_issues(token, addr@, exp)),
    {
        proof {
            use_type_invariant(self);
            Self::lemma_issues_some(*self, addr@, exp);
        }
        let entry = match find_entry(&self.keys, &self.default_kid) {
            Some(i) => &self.keys[i],
            None => {
                // The invariant of the type rules this out.
                return Err(JwtError::SigningKeyNotFound);
            },
        };
        let token = match encode_hs256(self.default_kid.as_str(), entry.secret.as_str(), &addr, exp) {
            Ok(token) => token,
            Err(_) => {
                return Err(JwtError::Encoding);
            },
        };
        if reads_back(token.as_str(), &self.default_kid, entry.secret.as_str(), &addr, exp) {
            Ok(token)
        } else {
            Err(JwtError::Encoding)
        }
    }

    /// Checks `token` as of the time `now`: reads the `kid` of its header,
    /// verifies signature and claims under the key of that name, and
    /// compares the expiry with `now`.
    pub fn decode_token_at(&self, token: &str, now: u64) -> (res: Result<UserClaims, JwtError>)
        ensures
            spec_outcome(res) == self.spec_decode(token@, now),
    {
        let kid = match decode_kid(token) {
            Ok(Some(kid)) => kid,
            Ok(None) => {
                return Err(JwtError::MissingKid);
            },
            Err(_) => {
                return Err(JwtError::MalformedToken);
            },
        };
        let i = match find_entry(&self.keys, &kid) {
            Some(i) => i,
            None => {
                return Err(JwtError::UnknownKid(kid));
            },
        };
        match decode_hs256(token, self.keys[i].secret.as_str()) {
            Ok(claims) => {
                if in_time(claims.exp, now) {
                    Ok(claims)
                } else {
                    Err(JwtError::Expired)
                }
            },
            Err(_) => Err(JwtError::InvalidToken),
        }
    }

    /// Checks `token` as of the current time of the system clock.
    pub fn decode_token(&self, token: &str) -> (res: Result<UserClaims, JwtError>)
        ensures
            exists|now: u64| spec_outcome(res) == self.spec_decode(token@, now),
    {
        let now = current_timestamp();
        self.decode_token_at(token, now)
    }

    /// A signer issues some token for given claims exactly where
    /// `spec_create` names one.
    pub proof fn lemma_issues_some(signer: JwtSigner, address: Seq<u8>, exp: usize)
        ensures
            (exists|token: Seq<char>| signer.spec_issues(token, address, exp))
                <==> signer.spec_create(address, exp) is Some,
    {
        if signer.spec_create(address, exp) is Some {
            assert(signer.spec_issues(signer.spec_create(address, exp)->0, address, exp));
        }
    }

    /// What an issued token is: the one that the encoder makes for the
    /// default identifier, its secret and the claims; its header names the
    /// default identifier; and under that secret it is accepted with
    /// exactly the claims that went in.
    pub proof fn law_issued_token_carries_its_claims(
        signer: JwtSigner,
        token: Seq<char>,
        address: Seq<u8>,
        exp: usize,
    )
        requires
            signer.spec_issues(token, address, exp),
        ensures
            spec_lookup(signer.keys(), signer.default_kid()) matches Some(secret) && {
                &&& hs256_token(signer.default_kid(), secret, address, exp) == Some(token)
                &&& token_kid(token) == Some(Some(signer.default_kid()))
                &&& hs256_claims(token, secret) == Some((address, exp))
            },
    {
    }

    /// A token verifies wherever its key is held: if `verifier` holds, under
    /// the issuer's default identifier, the secret that the issuer signs
    /// with, it accepts the issuer's token with the claims that went in, from
    /// any time up to the expiry and the leeway, and rejects it as expired
    /// after that.
    pub proof fn law_token_verifies_until_expiry(
        issuer: JwtSigner,
        verifier: JwtSigner,
        token: Seq<char>,
        address: Seq<u8>,
        exp: usize,
        now: u64,
    )
        requires
            issuer.spec_issues(token, address, exp),
            spec_lookup(verifier.keys(), issuer.default_kid()) == spec_lookup(
                issuer.keys(),
                issuer.default_kid(),
            ),
        ensures
            spec_in_time(exp, now) ==> verifier.spec_decode(token, now) == Ok::<
                (Seq<u8>, usize),
                JwtErrorView,
            >((address, exp)),
            !spec_in_time(exp, now) ==> verifier.spec_decode(token, now) == Err::<
                (Seq<u8>, usize),
                JwtErrorView,
            >(JwtErrorView::Expired),
    {
    }

    /// Once the key that signed a token is gone, the token is refused: a
    /// verifier that holds no key under the issuer's default identifier
    /// rejects the issuer's token at any time, naming the missing key.
    pub proof fn law_removed_key_rejects(
        issuer: JwtSigner,
        verifier: JwtSigner,
        token: Seq<char>,
        address: Seq<u8>,
        exp: usize,
        now: u64,
    )
        requires
            issuer.spec_issues(token, address, exp),
            spec_lookup(verifier.keys(), issuer.default_kid()) is None,
        ensures
            verifier.spec_decode(token, now) == Err::<(Seq<u8>, usize), JwtErrorView>(
                JwtErrorView::UnknownKid(issuer.default_kid()),
            ),
    {
    }

    /// Round trip: whenever a signer accepts a token that it issued for
    /// `address`, the claims that it reads are `address` and the expiry that
    /// went in; and it does accept the token until expiry and leeway are over.
    pub proof fn law_round_trip(
        signer: JwtSigner,
        token: Seq<char>,
        address: Seq<u8>,
        exp: usize,
        now: u64,
    )
        requires
            signer.spec_issues(token, address, exp),
        ensures
            signer.spec_decode(token, now) matches Ok(claims) ==> claims == (address, exp),
            spec_in_time(exp, now) ==> signer.spec_decode(token, now) is Ok,
    {
    }
}

impl Clone for JwtSigner {
    /// A signer with the same keys and the same default.
    fn clone(&self) -> (res: JwtSigner)
        ensures
            res.keys() == self.keys(),
            res.default_kid() == self.default_kid(),
    {
        proof {
            use_type_invariant(self);
        }
        JwtSigner { keys: copy_entries(&self.keys), default_kid: self.default_kid.clone() }
    }
}

} // verus!
