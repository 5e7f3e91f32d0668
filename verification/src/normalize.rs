//! Field normalization: deciding whether a raw platform string is a vendor
//! placeholder, and mapping raw values to either a trimmed real value or the
//! `"N/A"` sentinel.

use vstd::prelude::*;

use crate::chars::{
    contains_seq, contains_sub, is_space_char, lower_char, lower_seq, seq_eq_str, to_lower,
    trim_spec, trim_str,
};

verus! {

/// The fixed marker for "value not available", distinct from the empty string.
pub open spec fn sentinel() -> Seq<char> {
    "N/A"@
}

/// The fixed set of known-bogus literals, compared after trimming and
/// lower-casing.
pub open spec fn placeholder_literal(t: Seq<char>) -> bool {
    ||| t == "default string"@
    ||| t == "not specified"@
    ||| t == "none"@
    ||| t == "unknown"@
    ||| t == "system serial number"@
    ||| t == "system product name"@
    ||| t == "base board serial number"@
    ||| t == "chassis serial number"@
}

/// A value is a placeholder when, after trimming and lower-casing, it is
/// empty, carries a manufacturer-filler substring, or equals a known-bogus
/// literal.
pub open spec fn is_placeholder_spec(s: Seq<char>) -> bool {
    let t = lower_seq(trim_spec(s));
    ||| t.len() == 0
    ||| contains_seq(t, "to be filled"@)
    ||| contains_seq(t, "o.e.m"@)
    ||| contains_seq(t, "oem"@)
    ||| placeholder_literal(t)
}

/// What every collected value becomes before it enters the engine: the
/// sentinel for placeholders, the trimmed text otherwise.
pub open spec fn normalize_spec(s: Seq<char>) -> Seq<char> {
    if is_placeholder_spec(s) {
        sentinel()
    } else {
        trim_spec(s)
    }
}

/// Normalization of an optional raw value: absence is the sentinel.
pub open spec fn normalize_opt_spec(o: Option<Seq<char>>) -> Seq<char> {
    match o {
        Option::None => sentinel(),
        Option::Some(s) => normalize_spec(s),
    }
}

/// View of an optional owned string as an optional character sequence.
pub open spec fn opt_view(o: Option<String>) -> Option<Seq<char>> {
    match o {
        Option::None => Option::None,
        Option::Some(s) => Option::Some(s@),
    }
}

/// Decides whether a raw value is a vendor placeholder.
pub fn is_placeholder(s: &str) -> (r: bool)
    ensures
        r == is_placeholder_spec(s@),
{
    let t = trim_str(s);
    let n = t.unicode_len();
    let mut low: Vec<char> = Vec::new();
    let mut i: usize = 0;
    while i < n
        invariant
            0 <= i <= n,
            n == t@.len(),
            low@.len() == i,
            forall|k: int| 0 <= k < i ==> low@[k] == lower_char(t@[k]),
        decreases n - i,
    {
        low.push(to_lower(t.get_char(i)));
        i += 1;
    }
    proof {
        assert(low@ =~= lower_seq(t@));
    }
    if low.len() == 0 {
        return true;
    }
    if contains_sub(&low, "to be filled") {
        return true;
    }
    if contains_sub(&low, "o.e.m") {
        return true;
    }
    if contains_sub(&low, "oem") {
        return true;
    }
    seq_eq_str(&low, "default string") || seq_eq_str(&low, "not specified") || seq_eq_str(
        &low,
        "none",
    ) || seq_eq_str(&low, "unknown") || seq_eq_str(&low, "system serial number") || seq_eq_str(
        &low,
        "system product name",
    ) || seq_eq_str(&low, "base board serial number") || seq_eq_str(&low, "chassis serial number")
}

/// Maps a raw value to what the engine stores: the sentinel for
/// placeholders, the trimmed text otherwise.
pub fn normalize(raw: &str) -> (r: String)
    ensures
        r@ == normalize_spec(raw@),
{
    if is_placeholder(raw) {
        String::from_str("N/A")
    } else {
        String::from_str(trim_str(raw))
    }
}

/// Maps an optional raw value to what the engine stores; absence becomes the
/// sentinel.
pub fn normalize_opt(o: &Option<String>) -> (r: String)
    ensures
        r@ == normalize_opt_spec(opt_view(*o)),
{
    match o {
        Option::None => String::from_str("N/A"),
        Option::Some(s) => normalize(s.as_str()),
    }
}

/// The first present value of two optional raw sources.
pub open spec fn first_some(a: Option<Seq<char>>, b: Option<Seq<char>>) -> Option<Seq<char>> {
    if a is Some {
        a
    } else {
        b
    }
}

/// Normalization of the first present of two optional raw sources.
pub fn normalize_first(a: &Option<String>, b: &Option<String>) -> (r: String)
    ensures
        r@ == normalize_opt_spec(first_some(opt_view(*a), opt_view(*b))),
{
    match a {
        Option::Some(_) => normalize_opt(a),
        Option::None => normalize_opt(b),
    }
}

/// What the engine's invariant asks of a stored field: the sentinel, or a
/// nonempty trimmed non-placeholder value.
pub open spec fn normalized_value(f: Seq<char>) -> bool {
    f == sentinel() || (f.len() > 0 && f == trim_spec(f) && !is_placeholder_spec(f))
}

/// Normalization establishes the invariant.
pub proof fn lemma_normalize_normalized(s: Seq<char>)
    ensures
        normalized_value(normalize_spec(s)),
{
    if !is_placeholder_spec(s) {
        crate::chars::lemma_trim_props(s);
        assert(lower_seq(trim_spec(s)).len() == trim_spec(s).len());
        assert(!is_placeholder_spec(trim_spec(s)));
    }
}

/// Normalization of an optional value establishes the invariant.
pub proof fn lemma_normalize_opt_normalized(o: Option<Seq<char>>)
    ensures
        normalized_value(normalize_opt_spec(o)),
{
    match o {
        Option::None => {},
        Option::Some(s) => lemma_normalize_normalized(s),
    }
}

/// Law: a value that trims to nothing is a placeholder, and so is any
/// letter-case variant of a filler substring carrier or of a known-bogus
/// literal.
pub proof fn lemma_is_placeholder_cases(s: Seq<char>)
    ensures
        trim_spec(s).len() == 0 ==> is_placeholder_spec(s),
        contains_seq(lower_seq(trim_spec(s)), "to be filled"@) ==> is_placeholder_spec(s),
        contains_seq(lower_seq(trim_spec(s)), "o.e.m"@) ==> is_placeholder_spec(s),
        contains_seq(lower_seq(trim_spec(s)), "oem"@) ==> is_placeholder_spec(s),
        placeholder_literal(lower_seq(trim_spec(s))) ==> is_placeholder_spec(s),
{
}

} // verus!
