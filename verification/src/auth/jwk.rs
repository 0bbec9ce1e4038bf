use vstd::prelude::*;
use vstd::string::*;
use crate::auth::config::Config;

verus! {

/// One RSA public key of the identity provider, as published: its
/// identifier, and modulus and exponent in the provider's text encoding.
#[derive(Debug)]
pub struct Jwk {
    pub kid: String,
    pub modulus: String,
    pub exponent: String,
}

/// One complete key set, as one provider response gave it.
#[derive(Debug)]
pub struct JwkSet {
    pub keys: Vec<Jwk>,
}

/// Why a token was not accepted.
#[derive(Debug, Clone, Copy, PartialEq, Eq, Structural)]
pub enum ValidationError {
    /// There is no key set to validate against.
    KeySetUnavailable,
    /// The token's header cannot be read.
    MalformedToken,
    /// The token's header names no key.
    MissingKeyId,
    /// The key set holds no key with the identifier that the header names.
    KeyNotFound,
    /// The key's modulus or exponent cannot be decoded.
    InvalidKey,
    /// The signature, the audience or the time claims do not hold.
    Rejected,
}

/// The local copy of the provider's key set. It is a convenience, never a
/// trust boundary: every validation checks the signature again.
#[derive(Debug)]
pub struct KeyCache {
    snapshot: Option<JwkSet>,
}

#[verifier::external_type_specification]
#[verifier::external_body]
pub struct ExDecodingKey(jsonwebtoken::DecodingKey);

#[verifier::external_type_specification]
#[verifier::external_body]
pub struct ExValidation(jsonwebtoken::Validation);

/// What the header of `token` says of its key: `None` where the header cannot
/// be read, `Some(None)` where it names no key, else the key's identifier.
pub uninterp spec fn header_key_id(token: Seq<char>) -> Option<Option<Seq<char>>>;

/// Whether modulus and exponent, in their text encoding, can be decoded.
pub uninterp spec fn rsa_components_accepted(modulus: Seq<char>, exponent: Seq<char>) -> bool;

/// The text of a key identifier read from a header.
pub open spec fn key_id_text(header: Option<Option<String>>) -> Option<Option<Seq<char>>> {
    match header {
        None => None,
        Some(None) => Some(None),
        Some(Some(kid)) => Some(Some(kid@)),
    }
}

/// Whether some key of `keys` has the identifier `kid`.
pub open spec fn has_key(keys: Seq<Jwk>, kid: Seq<char>) -> bool {
    exists|i: int| 0 <= i < keys.len() && (#[trigger] keys[i]).kid@ == kid
}

/// Whether `at` is the position of the first key of `keys` with the
/// identifier `kid`.
pub open spec fn is_first_key(keys: Seq<Jwk>, kid: Seq<char>, at: int) -> bool {
    &&& 0 <= at < keys.len()
    &&& keys[at].kid@ == kid
    &&& forall|j: int| 0 <= j < at ==> (#[trigger] keys[j]).kid@ != kid
}

/// What `select_key` returns: the position of the key that a header with the
/// given key identifier asks for, or the reason why there is none.
pub open spec fn selects(
    header: Option<Option<Seq<char>>>,
    keys: Seq<Jwk>,
    choice: Result<usize, ValidationError>,
) -> bool {
    match header {
        None => choice == Err::<usize, ValidationError>(ValidationError::MalformedToken),
        Some(None) => choice == Err::<usize, ValidationError>(ValidationError::MissingKeyId),
        Some(Some(kid)) => match choice {
            Ok(at) => is_first_key(keys, kid, at as int),
            Err(e) => e == ValidationError::KeyNotFound && !has_key(keys, kid),
        },
    }
}

/// Reads the header of `token` with `jsonwebtoken::decode_header`, which
/// neither checks the signature nor looks at the claims, and hands out the
/// header's `kid` field. Trusted: the result is a function of the token's
/// text alone, named `header_key_id`.
#[verifier::external_body]
fn read_key_id(token: &str) -> (header: Option<Option<String>>)
    ensures
        key_id_text(header) == header_key_id(token@),
{
    jsonwebtoken::decode_header(token).ok().map(|header| header.kid)
}

/// Builds a verification key with
/// `jsonwebtoken::DecodingKey::from_rsa_components`. Trusted: whether a key
/// comes back depends on the two texts alone, named `rsa_components_accepted`.
#[verifier::external_body]
fn rsa_decoding_key(modulus: &str, exponent: &str) -> (key: Option<jsonwebtoken::DecodingKey>)
    ensures
        key.is_some() == rsa_components_accepted(modulus@, exponent@),
{
    jsonwebtoken::DecodingKey::from_rsa_components(modulus, exponent).ok()
}

/// The checks of `jsonwebtoken::Validation::new` for the provider's signing
/// algorithm, RS256. Nothing is claimed of the value.
#[verifier::external_body]
fn rs256_validation() -> jsonwebtoken::Validation {
    jsonwebtoken::Validation::new(jsonwebtoken::Algorithm::RS256)
}

/// Makes `audience` the only accepted audience, with
/// `jsonwebtoken::Validation::set_audience`. Nothing is claimed of the value.
#[verifier::external_body]
fn accept_audience(validation: &mut jsonwebtoken::Validation, audience: &str) {
    validation.set_audience(&[audience]);
}

/// Runs `jsonwebtoken::decode` and says whether it accepted the token:
/// signature, audience and time claims. The answer depends on the clock, so
/// nothing is claimed of it. The clock is taken to show a time after 1970.
#[verifier::external_body]
fn signature_and_claims_hold(
    token: &str,
    key: &jsonwebtoken::DecodingKey,
    validation: &jsonwebtoken::Validation,
) -> bool {
    jsonwebtoken::decode::<serde_json::Value>(token, key, validation).is_ok()
}

/// The address of the key-set document of a user pool in a region.
pub open spec fn jwks_url(region: Seq<char>, user_pool_id: Seq<char>) -> Seq<char> {
    "https://cognito-idp."@ + region + ".amazonaws.com/"@ + user_pool_id
        + "/.well-known/jwks.json"@
}

/// The well-known address from which the provider's key set is fetched.
pub fn get_jwks_url(config: &Config) -> (url: String)
    ensures
        url@ == jwks_url(config.region@, config.user_pool_id@),
{
    let mut url = String::from_str("https://cognito-idp.");
    url.append(config.region.as_str());
    url.append(".amazonaws.com/");
    url.append(config.user_pool_id.as_str());
    url.append("/.well-known/jwks.json");
    url
}

impl KeyCache {
    /// The cached key set, if there is one.
    pub closed spec fn view(&self) -> Option<JwkSet> {
        self.snapshot
    }

    /// A cache over what was found on disk: a key set, or nothing where the
    /// cache is missing or malformed.
    pub fn new(snapshot: Option<JwkSet>) -> (cache: Self)
        ensures
            cache@ == snapshot,
    {
        KeyCache { snapshot }
    }

    /// Gives up the cache for the key set in it, if there is one.
    pub fn into_keys(self) -> (keys: Option<JwkSet>)
        ensures
            keys == self@,
    {
        self.snapshot
    }
}

/// Takes a key set that was fetched from the provider into the cache. The
/// cache is overwritten in full: afterwards it holds this one response and
/// nothing of what it held before.
pub fn fetch_jwks(cache: &mut KeyCache, response: JwkSet)
    ensures
        final(cache)@ == Some(response),
{
    cache.snapshot = Some(response);
}

/// The cached key set. A cache that is missing or malformed has none, which
/// callers treat as a failed validation.
pub fn load_cached_jwks(cache: &KeyCache) -> (found: Result<&JwkSet, ValidationError>)
    ensures
        match cache@ {
            Some(keys) => found == Ok::<&JwkSet, ValidationError>(&keys),
            None => found == Err::<&JwkSet, ValidationError>(ValidationError::KeySetUnavailable),
        },
{
    match &cache.snapshot {
        Some(keys) => Ok(keys),
        None => Err(ValidationError::KeySetUnavailable),
    }
}

impl JwkSet {
    /// The position of the first key with the identifier `kid`, if there is one.
    pub fn find_key(&self, kid: &String) -> (found: Option<usize>)
        ensures
            match found {
                Some(at) => is_first_key(self.keys@, kid@, at as int),
                None => !has_key(self.keys@, kid@),
            },
    {
        let mut i: usize = 0;
        while i < self.keys.len()
            invariant
                i <= self.keys.len(),
                forall|j: int| 0 <= j < i ==> (#[trigger] self.keys@[j]).kid@ != kid@,
            decreases self.keys.len() - i,
        {
            if self.keys[i].kid == *kid {
                return Some(i);
            }
            i += 1;
        }
        None
    }
}

/// The key that a token asks for, given what its header says of its key:
/// the first key of the set with that identifier.
pub fn select_key(header: &Option<Option<String>>, keys: &JwkSet) -> (choice: Result<
    usize,
    ValidationError,
>)
    ensures
        selects(key_id_text(*header), keys.keys@, choice),
{
    match header {
        None => Err(ValidationError::MalformedToken),
        Some(None) => Err(ValidationError::MissingKeyId),
        Some(Some(kid)) => match keys.find_key(kid) {
            Some(at) => Ok(at),
            None => Err(ValidationError::KeyNotFound),
        },
    }
}

/// The position of the first key of `keys` with the identifier `kid`, where
/// there is one.
pub open spec fn first_key(keys: Seq<Jwk>, kid: Seq<char>) -> int {
    choose|at: int| is_first_key(keys, kid, at)
}

/// Whether `verdict` is a possible verdict on `token` under `keys`.
///
/// What the token's header and the key set decide is decided: an unreadable
/// header, a header without key identifier, a key set without the key, a key
/// that cannot be decoded. With a usable key the verdict is `Ok` or
/// `Rejected`; signature, audience and clock decide between them.
pub open spec fn admits(token: Seq<char>, keys: Seq<Jwk>, verdict: Result<(), ValidationError>) -> bool {
    match header_key_id(token) {
        None => verdict == Err::<(), ValidationError>(ValidationError::MalformedToken),
        Some(None) => verdict == Err::<(), ValidationError>(ValidationError::MissingKeyId),
        Some(Some(kid)) => if !has_key(keys, kid) {
            verdict == Err::<(), ValidationError>(ValidationError::KeyNotFound)
        } else {
            let key = keys[first_key(keys, kid)];
            if rsa_components_accepted(key.modulus@, key.exponent@) {
                verdict is Ok || verdict == Err::<(), ValidationError>(ValidationError::Rejected)
            } else {
                verdict == Err::<(), ValidationError>(ValidationError::InvalidKey)
            }
        },
    }
}

/// A key set has one first key with a given identifier at most.
pub proof fn lemma_first_key_is_unique(keys: Seq<Jwk>, kid: Seq<char>, at: int)
    requires
        is_first_key(keys, kid, at),
    ensures
        has_key(keys, kid),
        first_key(keys, kid) == at,
{
    let other = first_key(keys, kid);
    assert(is_first_key(keys, kid, other));
    if other < at {
        assert(keys[other].kid@ != kid);
    }
    if at < other {
        assert(keys[at].kid@ != kid);
    }
}

/// Validates `token` offline against one key set.
///
/// The header names the key; a set without it gives `KeyNotFound`. With the
/// key, the token is accepted if its RS256 signature is correct, the
/// audience that it names is `client_id`, and its expiry holds on the
/// verifier's clock.
pub fn validate_token(token: &str, keys: &JwkSet, client_id: &str) -> (verdict: Result<
    (),
    ValidationError,
>)
    ensures
        admits(token@, keys.keys@, verdict),
{
    let header = read_key_id(token);
    let at = match select_key(&header, keys) {
        Ok(at) => at,
        Err(e) => {
            return Err(e);
        },
    };
    let jwk = &keys.keys[at];
    proof {
        lemma_first_key_is_unique(keys.keys@, header_key_id(token@)->0->0, at as int);
    }
    match rsa_decoding_key(jwk.modulus.as_str(), jwk.exponent.as_str()) {
        None => Err(ValidationError::InvalidKey),
        Some(key) => {
            let mut validation = rs256_validation();
            accept_audience(&mut validation, client_id);
            if signature_and_claims_hold(token, &key, &validation) {
                Ok(())
            } else {
                Err(ValidationError::Rejected)
            }
        },
    }
}

} // verus!
