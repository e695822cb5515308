use vstd::prelude::*;

use crate::text::same_text;
use crate::time::{in_date_range, Timestamp, MAX_TIMESTAMP, MIN_TIMESTAMP};
use jsonwebtoken::errors::ErrorKind;
use jsonwebtoken::{Algorithm, DecodingKey, EncodingKey, Header, Validation};
use serde_json::Value;
use std::collections::BTreeMap;

verus! {

/// Why a token could not be issued or accepted.
#[derive(Clone, Copy, Debug, PartialEq, Eq, Structural)]
pub enum TokenError {
    /// Not three segments, a payload that is not a claims object, or a
    /// timestamp outside the range of UTC date-times.
    Malformed,
    /// The signature does not match the one recomputed with the secret.
    SignatureInvalid,
    /// The expiry is not after the time of the check.
    Expired,
}

/// One value of the payload object, as far as the claims need it.
#[derive(Clone, Debug)]
pub enum ClaimValue {
    Text(String),
    Integer(i64),
    Other,
}

/// What a payload value means.
pub enum FieldValue {
    Text(Seq<char>),
    Integer(i64),
    Other,
}

pub open spec fn value_view(v: ClaimValue) -> FieldValue {
    match v {
        ClaimValue::Text(s) => FieldValue::Text(s@),
        ClaimValue::Integer(i) => FieldValue::Integer(i),
        ClaimValue::Other => FieldValue::Other,
    }
}

/// The payload entries as names and values.
pub open spec fn fields_view(fields: Seq<(String, ClaimValue)>) -> Seq<(Seq<char>, FieldValue)> {
    fields.map_values(|e: (String, ClaimValue)| (e.0@, value_view(e.1)))
}

/// How many dots a text holds.
pub open spec fn dot_count(s: Seq<char>) -> nat
    decreases s.len(),
{
    if s.len() == 0 {
        0
    } else {
        dot_count(s.drop_last()) + if s.last() == '.' {
            1nat
        } else {
            0nat
        }
    }
}

/// The signed payload of a session token.
#[derive(Clone, Debug)]
pub struct Claims {
    pub sub: String,
    pub iat: Timestamp,
    pub exp: Timestamp,
}

/// What a `Claims` value means: subject, issue time and expiry.
pub type ClaimsView = (Seq<char>, Timestamp, Timestamp);

impl View for Claims {
    type V = ClaimsView;

    open spec fn view(&self) -> ClaimsView {
        (self.sub@, self.iat, self.exp)
    }
}

/// Claims with both timestamps cut to whole seconds.
pub open spec fn normalized(c: ClaimsView) -> ClaimsView {
    (c.0, c.1.truncated_spec(), c.2.truncated_spec())
}

/// Claims as they travel in a token: timestamps in whole seconds.
pub open spec fn claims_of(sub: Seq<char>, iat: i64, exp: i64) -> ClaimsView {
    (sub, Timestamp { seconds: iat, nanos: 0 }, Timestamp { seconds: exp, nanos: 0 })
}

pub open spec fn result_view(r: Result<Claims, TokenError>) -> Result<ClaimsView, TokenError> {
    match r {
        Ok(c) => Ok(c@),
        Err(e) => Err(e),
    }
}

impl Claims {
    /// Builds claims whose timestamps hold whole seconds only, so that a
    /// token made from them decodes to an equal value.
    pub fn new(sub: String, iat: Timestamp, exp: Timestamp) -> (r: Claims)
        ensures
            r@ == normalized((sub@, iat, exp)),
    {
        Claims { sub, iat: iat.truncated(), exp: exp.truncated() }
    }
}

/// The compact token (header, payload and signature, base64url and
/// dot-separated) that HS256 signing with `secret` makes of the claims
/// object `{"sub", "iat", "exp"}`.
pub uninterp spec fn hs256_token(sub: Seq<char>, iat: i64, exp: i64, secret: Seq<u8>) -> Seq<char>;

/// The token that encoding `c` with `secret` yields.
pub open spec fn token_of(c: ClaimsView, secret: Seq<u8>) -> Seq<char> {
    hs256_token(c.0, c.1.seconds, c.2.seconds, secret)
}

/// What jsonwebtoken's HS256 decoding, without claim validation, makes of
/// `token` under `secret`: the payload object's entries in key order, or
/// why it refused.
pub uninterp spec fn hs256_decoded(token: Seq<char>, secret: Seq<u8>) -> Result<
    Seq<(Seq<char>, FieldValue)>,
    TokenError,
>;

/// The payload entries of a decoding result, as names and values.
pub open spec fn decoded_view(r: Result<Vec<(String, ClaimValue)>, TokenError>) -> Result<
    Seq<(Seq<char>, FieldValue)>,
    TokenError,
> {
    match r {
        Ok(f) => Ok(fields_view(f@)),
        Err(e) => Err(e),
    }
}

/// Relies on jsonwebtoken::encode with the default header (HS256): it
/// serialises the claims object, signs header and payload with the secret
/// and joins the three base64url parts with dots. It fails only on a key
/// of another algorithm family or a payload serde cannot write, neither of
/// which arises for an HMAC key and a map of text and integers.
#[verifier::external_body]
fn hs256_encode(sub: &str, iat: i64, exp: i64, secret: &[u8]) -> (r: Result<String, TokenError>)
    ensures
        r is Ok,
        r matches Ok(t) ==> t@ == hs256_token(sub@, iat, exp, secret@),
        r matches Ok(t) ==> dot_count(t@) == 2,
{
    let mut claims = serde_json::Map::new();
    claims.insert(String::from("sub"), Value::from(sub));
    claims.insert(String::from("iat"), Value::from(iat));
    claims.insert(String::from("exp"), Value::from(exp));
    let key = EncodingKey::from_secret(secret);
    jsonwebtoken::encode(&Header::default(), &claims, &key).map_err(|_| TokenError::Malformed)
}

/// Relies on jsonwebtoken::decode with HS256 and no claim validation: it
/// splits the token, recomputes the signature over header and payload with
/// the secret and compares it with the one supplied, then parses the
/// payload. A token with other than two dots does not split into header,
/// payload and signature (a dot is no base64url character). A token that
/// jsonwebtoken::encode made of a claims object is refused for its
/// signature when the secret signs it differently, and otherwise comes
/// back as that object's entries in key order.
#[verifier::external_body]
fn hs256_decode(token: &str, secret: &[u8]) -> (r: Result<Vec<(String, ClaimValue)>, TokenError>)
    ensures
        decoded_view(r) == hs256_decoded(token@, secret@),
        dot_count(token@) != 2 ==> r is Err && r->Err_0 == TokenError::Malformed,
        forall|sub: Seq<char>, iat: i64, exp: i64, key: Seq<u8>|
            #[trigger] hs256_token(sub, iat, exp, key) == token@ ==> if hs256_token(
                sub,
                iat,
                exp,
                key,
            ) != hs256_token(sub, iat, exp, secret@) {
                r is Err && r->Err_0 == TokenError::SignatureInvalid
            } else {
                &&& r matches Ok(f)
                &&& f@.len() == 3
                &&& f@[0].0@ == "exp"@ && f@[0].1 == ClaimValue::Integer(exp)
                &&& f@[1].0@ == "iat"@ && f@[1].1 == ClaimValue::Integer(iat)
                &&& f@[2].0@ == "sub"@
                &&& f@[2].1 matches ClaimValue::Text(s) && s@ == sub
            },
        r matches Err(e) ==> e == TokenError::Malformed || e == TokenError::SignatureInvalid,
{
    let mut rules = Validation::new(Algorithm::HS256);
    rules.validate_exp = false;
    rules.validate_aud = false;
    rules.required_spec_claims.clear();
    let key = DecodingKey::from_secret(secret);
    match jsonwebtoken::decode::<BTreeMap<String, Value>>(token, &key, &rules) {
        Ok(data) => Ok(data.claims.into_iter().map(|(k, v)| match v {
            Value::String(s) => (k, ClaimValue::Text(s)),
            Value::Number(n) => (k, n.as_i64().map_or(ClaimValue::Other, ClaimValue::Integer)),
            _ => (k, ClaimValue::Other),
        }).collect()),
        Err(e) if *e.kind() == ErrorKind::InvalidSignature => Err(TokenError::SignatureInvalid),
        Err(_) => Err(TokenError::Malformed),
    }
}

/// The value of the first entry named `key`.
pub open spec fn field_value(fields: Seq<(Seq<char>, FieldValue)>, key: Seq<char>) -> Option<
    FieldValue,
>
    decreases fields.len(),
{
    if fields.len() == 0 {
        None
    } else if fields[0].0 == key {
        Some(fields[0].1)
    } else {
        field_value(fields.drop_first(), key)
    }
}

/// What a payload's entries yield when checked at `now` (seconds): the
/// claims if `sub` is text and `iat`, `exp` are integers naming UTC
/// date-times, `Expired` if moreover `now >= exp`, `Malformed` otherwise.
pub open spec fn fields_outcome(fields: Seq<(Seq<char>, FieldValue)>, now: i64) -> Result<
    ClaimsView,
    TokenError,
> {
    match (field_value(fields, "sub"@), field_value(fields, "iat"@), field_value(fields, "exp"@)) {
        (Some(FieldValue::Text(s)), Some(FieldValue::Integer(i)), Some(FieldValue::Integer(e))) => {
            if !in_date_range(i) || !in_date_range(e) {
                Err(TokenError::Malformed)
            } else if now >= e {
                Err(TokenError::Expired)
            } else {
                Ok(claims_of(s, i, e))
            }
        },
        _ => Err(TokenError::Malformed),
    }
}

/// What decoding at `now` yields for a token that `signed_with` signed over
/// the given claims, when checked with `secret`.
pub open spec fn decode_outcome(
    sub: Seq<char>,
    iat: i64,
    exp: i64,
    signed_with: Seq<u8>,
    secret: Seq<u8>,
    now: i64,
) -> Result<ClaimsView, TokenError> {
    if hs256_token(sub, iat, exp, signed_with) != hs256_token(sub, iat, exp, secret) {
        Err(TokenError::SignatureInvalid)
    } else if !in_date_range(iat) || !in_date_range(exp) {
        Err(TokenError::Malformed)
    } else if now >= exp {
        Err(TokenError::Expired)
    } else {
        Ok(claims_of(sub, iat, exp))
    }
}

/// What decoding `token` with `secret` at `now` yields: jsonwebtoken's
/// refusal, or the claims its payload holds, checked.
pub open spec fn decode_spec(token: Seq<char>, secret: Seq<u8>, now: i64) -> Result<
    ClaimsView,
    TokenError,
> {
    match hs256_decoded(token, secret) {
        Err(e) => Err(e),
        Ok(f) => fields_outcome(f, now),
    }
}

/// Index of the first entry named `key`.
fn find_field(fields: &Vec<(String, ClaimValue)>, key: &str) -> (r: Option<usize>)
    ensures
        match r {
            Some(i) => i < fields@.len() && field_value(fields_view(fields@), key@) == Some(
                value_view(fields@[i as int].1),
            ),
            None => field_value(fields_view(fields@), key@) is None,
        },
{
    let ghost v = fields_view(fields@);
    let mut i: usize = 0;
    assert(v.subrange(0, v.len() as int) == v);
    while i < fields.len()
        invariant
            v == fields_view(fields@),
            v.len() == fields@.len(),
            i <= fields@.len(),
            field_value(v, key@) == field_value(v.subrange(i as int, v.len() as int), key@),
        decreases fields@.len() - i,
    {
        let ghost rest = v.subrange(i as int, v.len() as int);
        assert(rest[0] == v[i as int]);
        if same_text(fields[i].0.as_str(), key) {
            return Some(i);
        }
        assert(rest.drop_first() == v.subrange(i + 1, v.len() as int));
        i = i + 1;
    }
    None
}

/// Reads the claims out of a verified payload's entries, refuses
/// timestamps that name no UTC date-time, and checks the expiry against
/// `now` (seconds since the epoch): a token whose expiry is `now` or
/// earlier has expired.
pub fn claims_from_fields(fields: &Vec<(String, ClaimValue)>, now: i64) -> (r: Result<
    Claims,
    TokenError,
>)
    ensures
        result_view(r) == fields_outcome(fields_view(fields@), now),
{
    let si = find_field(fields, "sub");
    let ii = find_field(fields, "iat");
    let ei = find_field(fields, "exp");
    match (si, ii, ei) {
        (Some(si), Some(ii), Some(ei)) => {
            match (&fields[si].1, &fields[ii].1, &fields[ei].1) {
                (ClaimValue::Text(s), ClaimValue::Integer(i), ClaimValue::Integer(e)) => {
                    if *i < MIN_TIMESTAMP || *i > MAX_TIMESTAMP || *e < MIN_TIMESTAMP || *e
                        > MAX_TIMESTAMP {
                        Err(TokenError::Malformed)
                    } else if now >= *e {
                        Err(TokenError::Expired)
                    } else {
                        Ok(
                            Claims {
                                sub: s.clone(),
                                iat: Timestamp::from_seconds(*i),
                                exp: Timestamp::from_seconds(*e),
                            },
                        )
                    }
                },
                _ => Err(TokenError::Malformed),
            }
        },
        _ => Err(TokenError::Malformed),
    }
}

/// Signs the claims with `secret`, their timestamps cut to whole seconds,
/// into three dot-separated parts.
pub fn encode(claims: &Claims, secret: &[u8]) -> (r: String)
    ensures
        r@ == token_of(normalized(claims@), secret@),
        dot_count(r@) == 2,
{
    let iat = claims.iat.truncated();
    let exp = claims.exp.truncated();
    match hs256_encode(claims.sub.as_str(), iat.seconds, exp.seconds, secret) {
        Ok(t) => t,
        Err(_) => String::new(),
    }
}

/// Verifies `token` with `secret` and reads its claims, refusing one whose
/// expiry is not after `now` (seconds since the epoch). The result is
/// `decode_spec`; a token signed over some claims yields exactly
/// `decode_outcome` of them, and one with other than two dots is malformed.
pub fn decode(token: &str, secret: &[u8], now: i64) -> (r: Result<Claims, TokenError>)
    ensures
        result_view(r) == decode_spec(token@, secret@, now),
        forall|sub: Seq<char>, iat: i64, exp: i64, key: Seq<u8>|
            #[trigger] hs256_token(sub, iat, exp, key) == token@ ==> result_view(r)
                == decode_outcome(sub, iat, exp, key, secret@, now),
        dot_count(token@) != 2 ==> r is Err && r->Err_0 == TokenError::Malformed,
        r matches Ok(c) ==> c.iat.nanos == 0 && c.exp.nanos == 0 && now < c.exp.seconds,
{
    match hs256_decode(token, secret) {
        Ok(fields) => {
            let r = claims_from_fields(&fields, now);
            proof {
                reveal_strlit("sub");
                reveal_strlit("iat");
                reveal_strlit("exp");
                assert forall|sub: Seq<char>, iat: i64, exp: i64, key: Seq<u8>|
                    #[trigger] hs256_token(sub, iat, exp, key) == token@ implies result_view(r)
                        == decode_outcome(sub, iat, exp, key, secret@, now) by {
                    if hs256_token(sub, iat, exp, key) == hs256_token(sub, iat, exp, secret@) {
                        let f = fields_view(fields@);
                        assert(f[0] == (fields@[0].0@, value_view(fields@[0].1)));
                        assert(f[1] == (fields@[1].0@, value_view(fields@[1].1)));
                        assert(f[2] == (fields@[2].0@, value_view(fields@[2].1)));
                        let f1 = f.drop_first();
                        let f2 = f1.drop_first();
                        assert(f1[0] == f[1]);
                        assert(f2[0] == f[2]);
                        assert("exp"@[0] != "iat"@[0]);
                        assert("exp"@[0] != "sub"@[0]);
                        assert("iat"@[0] != "sub"@[0]);
                        assert(field_value(f, "exp"@) == Some(f[0].1));
                        assert(field_value(f1, "iat"@) == Some(f[1].1));
                        assert(field_value(f, "iat"@) == Some(f[1].1));
                        assert(field_value(f2, "sub"@) == Some(f[2].1));
                        assert(field_value(f1, "sub"@) == Some(f[2].1));
                        assert(field_value(f, "sub"@) == Some(f[2].1));
                    }
                }
            }
            r
        },
        Err(e) => Err(e),
    }
}

/// Round trip: a token that `encode` made of `c` decodes with the same
/// secret, up to its expiry, to `c` with its timestamps cut to whole
/// seconds; cutting is idempotent, so encoding the decoded claims again
/// yields the same token.
pub proof fn lemma_round_trip(c: Claims, secret: Seq<u8>, now: i64)
    requires
        in_date_range(c.iat.seconds),
        in_date_range(c.exp.seconds),
        now < c.exp.seconds,
    ensures
        decode_outcome(c.sub@, c.iat.seconds, c.exp.seconds, secret, secret, now) == Ok::<
            ClaimsView,
            TokenError,
        >(normalized(c@)),
        token_of(normalized(c@), secret) == hs256_token(c.sub@, c.iat.seconds, c.exp.seconds, secret),
        normalized(normalized(c@)) == normalized(c@),
        token_of(normalized(normalized(c@)), secret) == token_of(normalized(c@), secret),
{
}

/// Signature isolation: a token signed with one secret is refused for its
/// signature under any secret that signs the same claims differently.
pub proof fn lemma_signature_isolation(c: Claims, signed_with: Seq<u8>, secret: Seq<u8>, now: i64)
    requires
        token_of(normalized(c@), signed_with) != token_of(normalized(c@), secret),
    ensures
        decode_outcome(c.sub@, c.iat.seconds, c.exp.seconds, signed_with, secret, now) == Err::<
            ClaimsView,
            TokenError,
        >(TokenError::SignatureInvalid),
{
}

/// Expiry: a correctly signed token whose expiry is one second before
/// `now`, or `now` itself, or any earlier time, is refused as expired.
pub proof fn lemma_expiry(c: Claims, secret: Seq<u8>, now: i64)
    requires
        in_date_range(c.iat.seconds),
        in_date_range(c.exp.seconds),
        c.exp.seconds <= now,
    ensures
        decode_outcome(c.sub@, c.iat.seconds, c.exp.seconds, secret, secret, now) == Err::<
            ClaimsView,
            TokenError,
        >(TokenError::Expired),
{
}

} // verus!
