//! The stored records (fixtures and news) and the shapes they travel in.
pub mod fixture;
pub mod news;


use vstd::prelude::*;

verus! {

/// Whether `c` is a digit of lower-case hexadecimal.
pub open spec fn is_lower_hex_digit(c: char) -> bool {
    ('0' <= c && c <= '9') || ('a' <= c && c <= 'f')
}

/// Whether `s` is the hyphenated lower-case text of a random (version 4, RFC 4122 variant)
/// UUID: 36 characters in groups of 8-4-4-4-12 hexadecimal digits, the version digit `4`,
/// and the variant digit one of `8`, `9`, `a`, `b`.
pub open spec fn is_uuid_v4_text(s: Seq<char>) -> bool {
    &&& s.len() == 36
    &&& s[8] == '-' && s[13] == '-' && s[18] == '-' && s[23] == '-'
    &&& forall|i: int| 0 <= i < 36 && i != 8 && i != 13 && i != 18 && i != 23
        ==> is_lower_hex_digit(#[trigger] s[i])
    &&& s[14] == '4'
    &&& (s[19] == '8' || s[19] == '9' || s[19] == 'a' || s[19] == 'b')
}

/// Calls uuid's `Uuid::new_v4` and its `Display` (`to_string`). Claimed: the text is the
/// hyphenated lower-case form of a version 4 UUID (`new_v4` sets the version and variant
/// bits over random ones; `Display` writes `LowerHex`, hyphenated); which identifier comes
/// out is left to chance.
#[verifier::external_body]
pub(crate) fn new_hash() -> (r: String)
    ensures
        is_uuid_v4_text(r@),
{
    uuid::Uuid::new_v4().to_string()
}

/// `o`'s text, or the empty text when absent (what `unwrap_or_default` gives a `String`).
pub open spec fn text_or_empty(o: Option<Seq<char>>) -> Seq<char> {
    match o {
        Some(s) => s,
        None => Seq::empty(),
    }
}

/// What a query limited to `limit` rows returns of `rows`: a negative limit sets no bound,
/// as in SQLite.
pub open spec fn take_limit<A>(rows: Seq<A>, limit: i64) -> Seq<A> {
    if limit < 0 || limit >= rows.len() {
        rows
    } else {
        rows.take(limit as int)
    }
}

/// The row limit of a listing: the one asked for, else ten.
pub open spec fn spec_listing_limit(limit_to: Option<i64>) -> i64 {
    match limit_to {
        Some(l) => l,
        None => 10,
    }
}

/// Limiting a sequence with one more element: the element is kept exactly when the limit
/// leaves room for it.
pub proof fn lemma_take_limit_push<A>(rows: Seq<A>, x: A, limit: i64)
    ensures
        take_limit(rows.push(x), limit) == if limit < 0 || rows.len() < limit {
            take_limit(rows, limit).push(x)
        } else {
            take_limit(rows, limit)
        },
{
    if limit >= 0 && rows.len() >= limit {
        assert(rows.push(x).take(limit as int) =~= take_limit(rows, limit));
    }
}

/// Resolves the row limit of a listing.
pub(crate) fn listing_limit(limit_to: Option<i64>) -> (r: i64)
    ensures
        r == spec_listing_limit(limit_to),
{
    match limit_to {
        Some(l) => l,
        None => 10,
    }
}

} // verus!
