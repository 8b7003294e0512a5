//! Customers: profile checks, the identities a profile brings, how an
//! identity value is normalised, and which stored identity a new profile
//! joins.
use vstd::prelude::*;
use crate::errors::CustomerError;
use crate::metafields::{json_parses, optional_json_spec, parses_as_json};
use crate::text::{
    ascii_digits, digits_of, is_ascii_digit, is_blank, is_ws, lemma_trim_idempotent,
    lemma_trim_of_trimmed, str_eq, to_lowercase, to_owned, trim, trim_seq, unicode_lowercase,
};

verus! {

/// A customer profile as a caller submits it.
#[derive(Debug, Clone, PartialEq, Eq)]
pub struct ProfileInput {
    pub name: String,
    pub email: String,
    pub phone: String,
    pub status: String,
    pub notes: String,
    pub country_code: String,
}

/// An identity (email, phone or another kind) of a customer.
#[derive(Debug, Clone, PartialEq, Eq)]
pub struct IdentityInput {
    pub identity_type: String,
    pub identity_value: String,
    pub verified: bool,
}

/// An identity as plain values: kind, value, verified.
pub open spec fn identity_view(i: IdentityInput) -> (Seq<char>, Seq<char>, bool) {
    (i.identity_type@, i.identity_value@, i.verified)
}

/// The views of a list of identities.
pub open spec fn identity_views(s: Seq<IdentityInput>) -> Seq<(Seq<char>, Seq<char>, bool)> {
    s.map_values(|i: IdentityInput| identity_view(i))
}

/// The country a profile is stored with: its own, or `JP`.
pub open spec fn country_or_default(c: Seq<char>) -> Seq<char> {
    if c.len() == 0 {
        "JP"@
    } else {
        c
    }
}

/// The country a profile is stored with: its own, or `JP`.
pub fn default_country_code(country_code: &str) -> (r: String)
    ensures
        r@ == country_or_default(country_code@),
{
    if country_code.is_empty() {
        to_owned("JP")
    } else {
        to_owned(country_code)
    }
}

/// The status a profile is stored with: its own, or `active`.
pub fn profile_status_or_default(status: &str) -> (r: String)
    ensures
        r@ == if status@.len() == 0 {
            "active"@
        } else {
            status@
        },
{
    if status.is_empty() {
        to_owned("active")
    } else {
        to_owned(status)
    }
}

/// The source an identity is recorded with: its own, or `admin`.
pub fn identity_source_or_default(source: &str) -> (r: String)
    ensures
        r@ == if source@.len() == 0 {
            "admin"@
        } else {
            source@
        },
{
    if source.is_empty() {
        to_owned("admin")
    } else {
        to_owned(source)
    }
}

/// A profile needs a name or something to know the customer by.
pub fn validate_customer_profile(profile: &ProfileInput, identities: &Vec<IdentityInput>) -> (r:
    Result<(), CustomerError>)
    ensures
        r is Ok <==> (profile.name@.len() > 0 || profile.email@.len() > 0 || profile.phone@.len()
            > 0 || identities@.len() > 0),
        r matches Err(e) ==> e == CustomerError::InvalidArgument(e.payload()) && e.payload()@
            == "customer name or identity is required"@,
{
    let has_identifier = !profile.email.as_str().is_empty() || !profile.phone.as_str().is_empty()
        || identities.len() > 0;
    if profile.name.as_str().is_empty() && !has_identifier {
        return Err(CustomerError::invalid_argument("customer name or identity is required"));
    }
    Ok(())
}

/// The identities a profile brings by itself: its email, then its phone,
/// each unverified, when present.
pub open spec fn profile_identities(email: Seq<char>, phone: Seq<char>) -> Seq<
    (Seq<char>, Seq<char>, bool),
> {
    let e = if email.len() > 0 {
        seq![("email"@, email, false)]
    } else {
        Seq::empty()
    };
    let p = if phone.len() > 0 {
        seq![("phone"@, phone, false)]
    } else {
        Seq::empty()
    };
    e + p
}

/// An identity is kept when neither its kind nor its value is blank.
pub open spec fn identity_kept(i: (Seq<char>, Seq<char>, bool)) -> bool {
    trim_seq(i.0).len() > 0 && trim_seq(i.1).len() > 0
}

/// The kept identities of `s`, in order.
pub open spec fn kept_identities(s: Seq<(Seq<char>, Seq<char>, bool)>) -> Seq<
    (Seq<char>, Seq<char>, bool),
>
    decreases s.len(),
{
    if s.len() == 0 {
        Seq::empty()
    } else {
        let r = kept_identities(s.drop_last());
        if identity_kept(s.last()) {
            r.push(s.last())
        } else {
            r
        }
    }
}

/// No kept identity has a blank kind or value, and none is made up: each
/// is one of the given identities.
pub proof fn lemma_kept_identities_are_kept(s: Seq<(Seq<char>, Seq<char>, bool)>)
    ensures
        forall|i: int| 0 <= i < kept_identities(s).len() ==> identity_kept(#[trigger] kept_identities(s)[i]),
        forall|i: int| 0 <= i < kept_identities(s).len() ==> s.contains(#[trigger] kept_identities(s)[i]),
        kept_identities(s).len() <= s.len(),
    decreases s.len(),
{
    if s.len() > 0 {
        let t = s.drop_last();
        lemma_kept_identities_are_kept(t);
        let r = kept_identities(t);
        assert forall|i: int| 0 <= i < r.len() implies s.contains(#[trigger] r[i]) by {
            assert(t.contains(r[i]));
            let j = choose|j: int| 0 <= j < t.len() && t[j] == r[i];
            assert(s[j] == t[j]);
        }
        if identity_kept(s.last()) {
            assert(kept_identities(s) == r.push(s.last()));
            assert(s[s.len() - 1] == s.last());
        }
    }
}

fn keep_identities(all: Vec<IdentityInput>) -> (r: Vec<IdentityInput>)
    ensures
        identity_views(r@) == kept_identities(identity_views(all@)),
{
    let mut out: Vec<IdentityInput> = Vec::new();
    let mut k: usize = 0;
    assert(identity_views(all@).take(0) =~= Seq::<(Seq<char>, Seq<char>, bool)>::empty());
    assert(identity_views(out@) =~= Seq::<(Seq<char>, Seq<char>, bool)>::empty());
    while k < all.len()
        invariant
            k <= all.len(),
            identity_views(out@) == kept_identities(identity_views(all@).take(k as int)),
        decreases all.len() - k,
    {
        assert(identity_views(all@).take(k + 1).drop_last() =~= identity_views(all@).take(
            k as int,
        ));
        assert(identity_views(all@).take(k + 1).last() == identity_view(all@[k as int]));
        let item = &all[k];
        if !is_blank(item.identity_type.as_str()) && !is_blank(item.identity_value.as_str()) {
            let ghost old_out = out@;
            let copy = IdentityInput {
                identity_type: to_owned(item.identity_type.as_str()),
                identity_value: to_owned(item.identity_value.as_str()),
                verified: item.verified,
            };
            out.push(copy);
            assert(identity_views(out@) =~= identity_views(old_out).push(identity_view(all@[k as int])));
        }
        k = k + 1;
    }
    assert(identity_views(all@).take(all.len() as int) =~= identity_views(all@));
    out
}

/// The identities a new profile is matched and stored by: the profile's
/// email and phone, then the given identities, less those with a blank
/// kind or value.
pub fn normalize_identities(profile: &ProfileInput, identities: Vec<IdentityInput>) -> (r: Vec<
    IdentityInput,
>)
    ensures
        identity_views(r@) == kept_identities(
            profile_identities(profile.email@, profile.phone@) + identity_views(identities@),
        ),
{
    let mut all: Vec<IdentityInput> = Vec::new();
    if !profile.email.as_str().is_empty() {
        all.push(
            IdentityInput {
                identity_type: to_owned("email"),
                identity_value: to_owned(profile.email.as_str()),
                verified: false,
            },
        );
    }
    if !profile.phone.as_str().is_empty() {
        all.push(
            IdentityInput {
                identity_type: to_owned("phone"),
                identity_value: to_owned(profile.phone.as_str()),
                verified: false,
            },
        );
    }
    assert(identity_views(all@) =~= profile_identities(profile.email@, profile.phone@));
    let ghost front = all@;
    let mut rest = identities;
    all.append(&mut rest);
    assert(identity_views(all@) =~= identity_views(front) + identity_views(identities@));
    keep_identities(all)
}

/// How an identity value is stored: trimmed, and then an email lower-cased
/// and a phone reduced to its digits.
pub open spec fn normalized_identity(kind: Seq<char>, value: Seq<char>) -> Seq<char> {
    let t = trim_seq(value);
    if kind == "email"@ {
        unicode_lowercase(t)
    } else if kind == "phone"@ {
        digits_of(t)
    } else {
        t
    }
}

/// How an identity value is stored: trimmed, and then an email lower-cased
/// and a phone reduced to its digits.
pub fn normalize_identity(identity_type: &str, value: &str) -> (r: String)
    ensures
        r@ == normalized_identity(identity_type@, value@),
{
    let trimmed = trim(value);
    if str_eq(identity_type, "email") {
        to_lowercase(trimmed.as_str())
    } else if str_eq(identity_type, "phone") {
        ascii_digits(trimmed.as_str())
    } else {
        trimmed
    }
}

proof fn lemma_digits_only(d: Seq<char>)
    requires
        forall|k: int| 0 <= k < d.len() ==> is_ascii_digit(#[trigger] d[k]),
    ensures
        digits_of(d) == d,
    decreases d.len(),
{
    reveal(Seq::filter);
    if d.len() > 0 {
        lemma_digits_only(d.drop_last());
        assert(d.drop_last().push(d.last()) =~= d);
    }
}

/// Storing an identity value that is already stored changes nothing, for
/// every kind but email (whose lower-casing is `str::to_lowercase`, of
/// which nothing beyond its name is stated here).
pub proof fn lemma_normalize_identity_idempotent(kind: Seq<char>, value: Seq<char>)
    requires
        kind != "email"@,
    ensures
        normalized_identity(kind, normalized_identity(kind, value)) == normalized_identity(kind, value),
{
    let t = trim_seq(value);
    lemma_trim_idempotent(value);
    if kind == "phone"@ {
        let d = digits_of(t);
        t.filter_lemma(|c: char| is_ascii_digit(c));
        assert forall|k: int| 0 <= k < d.len() implies is_ascii_digit(#[trigger] d[k]) by {}
        if d.len() > 0 {
            assert(!is_ws(d[0]) && !is_ws(d.last()));
        }
        lemma_trim_of_trimmed(d);
        lemma_digits_only(d);
    }
}

/// Normalises the value of each identity; kinds and verification stay.
pub fn normalize_identity_values(identities: Vec<IdentityInput>) -> (r: Vec<IdentityInput>)
    ensures
        r@.len() == identities@.len(),
        forall|i: int|
            0 <= i < r@.len() ==> {
                &&& (#[trigger] r@[i]).identity_type@ == identities@[i].identity_type@
                &&& r@[i].verified == identities@[i].verified
                &&& r@[i].identity_value@ == normalized_identity(
                    identities@[i].identity_type@,
                    identities@[i].identity_value@,
                )
            },
{
    let mut out: Vec<IdentityInput> = Vec::new();
    let mut k: usize = 0;
    while k < identities.len()
        invariant
            k <= identities.len(),
            out@.len() == k,
            forall|i: int|
                0 <= i < k ==> {
                    &&& (#[trigger] out@[i]).identity_type@ == identities@[i].identity_type@
                    &&& out@[i].verified == identities@[i].verified
                    &&& out@[i].identity_value@ == normalized_identity(
                        identities@[i].identity_type@,
                        identities@[i].identity_value@,
                    )
                },
        decreases identities.len() - k,
    {
        let item = &identities[k];
        let value = normalize_identity(item.identity_type.as_str(), item.identity_value.as_str());
        out.push(
            IdentityInput {
                identity_type: to_owned(item.identity_type.as_str()),
                identity_value: value,
                verified: item.verified,
            },
        );
        k = k + 1;
    }
    out
}

/// A stored identity that matches one of a new profile's identities: the
/// customer it belongs to, whether it is verified, and when it was created
/// (microseconds since the epoch).
#[derive(Debug, Clone, PartialEq, Eq)]
pub struct IdentityMatch {
    pub customer_id: String,
    pub verified: bool,
    pub created_at: i64,
}

/// `c` is a better match than `cur`: verified where `cur` is not, or
/// equally verified and created earlier.
pub open spec fn beats(c: IdentityMatch, cur: IdentityMatch) -> bool {
    (c.verified && !cur.verified) || (c.verified == cur.verified && c.created_at < cur.created_at)
}

/// The index of the match that the matches, taken in order, leave standing
/// (each replaces the one standing when it is better); -1 when there is none.
pub open spec fn best_index(s: Seq<IdentityMatch>) -> int
    decreases s.len(),
{
    if s.len() == 0 {
        -1
    } else {
        let b = best_index(s.drop_last());
        if b < 0 {
            0
        } else if beats(s.last(), s[b]) {
            s.len() - 1
        } else {
            b
        }
    }
}

/// The match that is kept is in range, no match is better than it, and it is
/// better than every match before it: the earliest of the best.
pub proof fn lemma_best_index(s: Seq<IdentityMatch>)
    ensures
        s.len() == 0 <==> best_index(s) == -1,
        s.len() > 0 ==> 0 <= best_index(s) < s.len(),
        s.len() > 0 ==> forall|j: int| 0 <= j < s.len() ==> !beats(#[trigger] s[j], s[best_index(s)]),
        s.len() > 0 ==> forall|j: int| 0 <= j < best_index(s) ==> beats(s[best_index(s)], #[trigger] s[j]),
    decreases s.len(),
{
    if s.len() > 0 {
        let t = s.drop_last();
        lemma_best_index(t);
        let b = best_index(t);
        let n = s.len() - 1;
        if b < 0 {
            assert(t.len() == 0);
        } else if beats(s[n], t[b]) {
            assert(best_index(s) == n);
            assert forall|j: int| 0 <= j < s.len() implies !beats(#[trigger] s[j], s[n]) by {
                if j < n {
                    assert(s[j] == t[j]);
                    assert(!beats(t[j], t[b]));
                }
            }
            assert forall|j: int| 0 <= j < n implies beats(s[n], #[trigger] s[j]) by {
                assert(s[j] == t[j]);
                assert(!beats(t[j], t[b]));
            }
        } else {
            assert(best_index(s) == b);
            assert(s[b] == t[b]);
            assert forall|j: int| 0 <= j < s.len() implies !beats(#[trigger] s[j], s[b]) by {
                if j < n {
                    assert(s[j] == t[j]);
                }
            }
            assert forall|j: int| 0 <= j < b implies beats(s[b], #[trigger] s[j]) by {
                assert(s[j] == t[j]);
                assert(beats(t[b], t[j]));
            }
        }
    }
}

/// Which identity match a new profile joins, if any: the best, and of
/// equally good ones the first.
pub fn best_match(matches: &Vec<IdentityMatch>) -> (r: Option<usize>)
    ensures
        r is None <==> matches@.len() == 0,
        r matches Some(i) ==> i as int == best_index(matches@),
{
    let mut best: Option<usize> = None;
    let mut k: usize = 0;
    proof {
        lemma_best_index(matches@.take(0));
    }
    while k < matches.len()
        invariant
            k <= matches.len(),
            best is None <==> k == 0,
            best matches Some(b) ==> b < k && b as int == best_index(matches@.take(k as int)),
            best is None ==> best_index(matches@.take(k as int)) == -1,
        decreases matches.len() - k,
    {
        proof {
            let t = matches@.take(k + 1);
            assert(t.drop_last() =~= matches@.take(k as int));
            assert(t.last() == matches@[k as int]);
            lemma_best_index(matches@.take(k as int));
            if let Some(b) = best {
                assert(t[b as int] == matches@[b as int]);
            }
        }
        best = match best {
            None => Some(k),
            Some(b) => {
                let c = &matches[k];
                let cur = &matches[b];
                if (c.verified && !cur.verified) || (c.verified == cur.verified && c.created_at
                    < cur.created_at) {
                    Some(k)
                } else {
                    Some(b)
                }
            },
        };
        k = k + 1;
    }
    assert(matches@.take(matches.len() as int) =~= matches@);
    best
}

/// An identity upsert needs a kind and a value.
pub fn check_identity_upsert(identity_type: &str, identity_value: &str) -> (r: Result<
    (),
    CustomerError,
>)
    ensures
        r is Ok <==> identity_type@.len() > 0 && identity_value@.len() > 0,
        r matches Err(e) ==> e == CustomerError::InvalidArgument(e.payload()) && e.payload()@
            == "identity_type and identity_value are required"@,
{
    if identity_type.is_empty() || identity_value.is_empty() {
        Err(CustomerError::invalid_argument("identity_type and identity_value are required"))
    } else {
        Ok(())
    }
}

/// A stored identity may only be updated for the customer it belongs to.
pub fn check_identity_owner(existing_customer_id: &str, customer_id: &str) -> (r: Result<
    (),
    CustomerError,
>)
    ensures
        r is Ok <==> existing_customer_id@ == customer_id@,
        r matches Err(e) ==> e == CustomerError::AlreadyExists(e.payload()) && e.payload()@
            == "identity is already linked to another customer"@,
{
    if !str_eq(existing_customer_id, customer_id) {
        Err(CustomerError::already_exists("identity is already linked to another customer"))
    } else {
        Ok(())
    }
}

/// An address needs its kind, name, postal code, prefecture, city and first
/// line.
pub fn check_address_input(
    kind: &str,
    name: &str,
    postal_code: &str,
    prefecture: &str,
    city: &str,
    line1: &str,
) -> (r: Result<(), CustomerError>)
    ensures
        r is Ok <==> kind@.len() > 0 && name@.len() > 0 && postal_code@.len() > 0
            && prefecture@.len() > 0 && city@.len() > 0 && line1@.len() > 0,
        r matches Err(e) ==> e == CustomerError::InvalidArgument(e.payload()) && e.payload()@
            == "address required fields are missing"@,
{
    if kind.is_empty() || name.is_empty() || postal_code.is_empty() || prefecture.is_empty()
        || city.is_empty() || line1.is_empty() {
        Err(CustomerError::invalid_argument("address required fields are missing"))
    } else {
        Ok(())
    }
}

/// A metafield definition needs a namespace, key, name and value type.
pub fn check_definition_input(namespace: &str, key: &str, name: &str, value_type: &str) -> (r:
    Result<(), CustomerError>)
    ensures
        r is Ok <==> namespace@.len() > 0 && key@.len() > 0 && name@.len() > 0 && value_type@.len()
            > 0,
        r matches Err(e) ==> e == CustomerError::InvalidArgument(e.payload()) && e.payload()@
            == "definition required fields are missing"@,
{
    if namespace.is_empty() || key.is_empty() || name.is_empty() || value_type.is_empty() {
        Err(CustomerError::invalid_argument("definition required fields are missing"))
    } else {
        Ok(())
    }
}

/// An update names its definition by a non-blank id.
pub fn require_definition_id(definition_id: &str) -> (r: Result<(), CustomerError>)
    ensures
        r is Ok <==> trim_seq(definition_id@).len() > 0,
        r matches Err(e) ==> e == CustomerError::InvalidArgument(e.payload()) && e.payload()@
            == "definition_id is required"@,
{
    if is_blank(definition_id) {
        Err(CustomerError::invalid_argument("definition_id is required"))
    } else {
        Ok(())
    }
}

/// A metafield value must be non-blank text that parses as JSON.
pub fn check_value_json(value_json: &str) -> (r: Result<(), CustomerError>)
    ensures
        r is Ok <==> trim_seq(value_json@).len() > 0 && json_parses(value_json@),
        r matches Err(e) ==> e == CustomerError::InvalidArgument(e.payload()) && e.payload()@ == (
        if trim_seq(value_json@).len() == 0 {
            "value_json is required"@
        } else {
            "value_json must be valid JSON"@
        }),
{
    if is_blank(value_json) {
        return Err(CustomerError::invalid_argument("value_json is required"));
    }
    if !parses_as_json(value_json) {
        return Err(CustomerError::invalid_argument("value_json must be valid JSON"));
    }
    Ok(())
}

/// Blank text becomes `{}`; other text must parse as JSON and is kept.
pub fn normalize_optional_json(value: String) -> (r: Result<String, CustomerError>)
    ensures
        match optional_json_spec(value@, json_parses(value@)) {
            Some(v) => r matches Ok(s) && s@ == v,
            None => r matches Err(e) && e == CustomerError::InvalidArgument(e.payload())
                && e.payload()@ == "invalid json provided"@,
        },
{
    if is_blank(value.as_str()) {
        return Ok(to_owned("{}"));
    }
    if !parses_as_json(value.as_str()) {
        return Err(CustomerError::invalid_argument("invalid json provided"));
    }
    Ok(value)
}

} // verus!
