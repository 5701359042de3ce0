use vstd::prelude::*;

verus! {

/// Model identifiers accepted by the gateway start with this prefix or the
/// next one.
pub const MODEL_PREFIX_SMALL: &'static str = "gemma3:1b";

/// The second permitted prefix.
pub const MODEL_PREFIX_LARGE: &'static str = "gemma3:4b";

/// True when `p` is a prefix of `s`.
pub open spec fn has_prefix(s: Seq<char>, p: Seq<char>) -> bool {
    p.len() <= s.len() && s.subrange(0, p.len() as int) == p
}

/// Whether `model` starts with a permitted prefix.
pub open spec fn allowed_model(model: Seq<char>) -> bool {
    has_prefix(model, MODEL_PREFIX_SMALL@) || has_prefix(model, MODEL_PREFIX_LARGE@)
}

fn starts_with(s: &str, p: &str) -> (r: bool)
    ensures
        r == has_prefix(s@, p@),
{
    let n = s.unicode_len();
    let m = p.unicode_len();
    if m > n {
        return false;
    }
    let mut i: usize = 0;
    while i < m
        invariant
            m <= n,
            n == s@.len(),
            m == p@.len(),
            i <= m,
            forall|j: int| 0 <= j < i ==> s@[j] == p@[j],
        decreases m - i,
    {
        if s.get_char(i) != p.get_char(i) {
            assert(s@.subrange(0, m as int)[i as int] != p@[i as int]);
            return false;
        }
        i = i + 1;
    }
    assert(s@.subrange(0, m as int) =~= p@);
    true
}

/// Whether `model` names a permitted model: a case-sensitive prefix match
/// against the allow-list.
pub fn is_allowed_model(model: &str) -> (r: bool)
    ensures
        r == allowed_model(model@),
{
    starts_with(model, MODEL_PREFIX_SMALL) || starts_with(model, MODEL_PREFIX_LARGE)
}

} // verus!
