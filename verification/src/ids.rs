//! Resolution of the per-request correlation identifier: a non-empty
//! caller-supplied header value is kept verbatim, anything else is
//! replaced by a freshly generated 128-bit identifier in its canonical
//! hyphenated text form.

use vstd::prelude::*;

verus! {

/// A lower-case hexadecimal digit, as used by the canonical text form
/// of a 128-bit identifier.
pub open spec fn is_lower_hex_digit(c: char) -> bool {
    ('0' <= c && c <= '9') || ('a' <= c && c <= 'f')
}

/// The canonical hyphenated text form of a 128-bit identifier:
/// 36 characters, hyphens at positions 8, 13, 18 and 23, lower-case
/// hexadecimal digits everywhere else.
pub open spec fn is_canonical_id(s: Seq<char>) -> bool {
    &&& s.len() == 36
    &&& forall|i: int|
        (0 <= i < 36 && (i == 8 || i == 13 || i == 18 || i == 23)) ==> #[trigger] s[i] == '-'
    &&& forall|i: int|
        (0 <= i < 36 && !(i == 8 || i == 13 || i == 18 || i == 23)) ==> is_lower_hex_digit(
            #[trigger] s[i],
        )
}

/// The all-zero identifier, in canonical form; a convenient witness for
/// statements that quantify over canonical identifiers.
pub open spec fn nil_id() -> Seq<char> {
    Seq::new(
        36,
        |i: int|
            if i == 8 || i == 13 || i == 18 || i == 23 {
                '-'
            } else {
                '0'
            },
    )
}

pub proof fn lemma_nil_id_canonical()
    ensures
        is_canonical_id(nil_id()),
{
}

/// The view of an optional inbound header value.
pub open spec fn header_view(o: Option<&str>) -> Option<Seq<char>> {
    match o {
        Some(s) => Some(s@),
        None => None,
    }
}

/// True when the caller supplied a usable correlation identifier: the
/// header is present with a non-empty value.
pub open spec fn header_supplied(o: Option<Seq<char>>) -> bool {
    match o {
        Some(v) => v.len() > 0,
        None => false,
    }
}

/// The identifier a request ends up with: the caller-supplied value when
/// there is a usable one, the freshly generated value `fresh` otherwise.
pub open spec fn resolved_id(inbound: Option<Seq<char>>, fresh: Seq<char>) -> Seq<char> {
    match inbound {
        Some(v) => if v.len() > 0 {
            v
        } else {
            fresh
        },
        None => fresh,
    }
}

/// Relies on uuid::Uuid::new_v4 and uuid's Display implementation: a
/// freshly drawn version-4 identifier printed in the hyphenated
/// lower-case form, 36 characters with hyphens at positions 8, 13, 18
/// and 23. The value is random, so nothing beyond its shape is assumed.
#[verifier::external_body]
fn generate_id() -> (r: String)
    ensures
        is_canonical_id(r@),
{
    uuid::Uuid::new_v4().to_string()
}

/// Resolve the correlation identifier for one request: keep a non-empty
/// caller-supplied value verbatim, otherwise generate a fresh canonical
/// identifier.
pub fn resolve_request_id(inbound: Option<&str>) -> (r: String)
    ensures
        header_supplied(header_view(inbound)) ==> Some(r@) == header_view(inbound),
        !header_supplied(header_view(inbound)) ==> is_canonical_id(r@),
        exists|fresh: Seq<char>|
            #[trigger] is_canonical_id(fresh) && r@ == resolved_id(header_view(inbound), fresh),
{
    match inbound {
        Some(v) => {
            if !v.is_empty() {
                proof {
                    lemma_nil_id_canonical();
                    assert(v@ == resolved_id(header_view(inbound), nil_id()));
                }
                v.to_owned()
            } else {
                let r = generate_id();
                proof {
                    assert(r@ == resolved_id(header_view(inbound), r@));
                }
                r
            }
        },
        None => {
            let r = generate_id();
            proof {
                assert(r@ == resolved_id(header_view(inbound), r@));
            }
            r
        },
    }
}

} // verus!
