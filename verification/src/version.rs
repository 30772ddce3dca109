//! Version-tag normalization: a raw release tag is brought to a canonical
//! form by stripping one known, non-semantic prefix.

use vstd::prelude::*;

use crate::text::{spec_has_prefix, str_has_prefix};

verus! {

/// The canonical form of a tag: the longest matching prefix among `"app-v"`,
/// `"app-"` and `"v"` is removed; at most one prefix is stripped; a tag with
/// no known prefix is kept as it is.
pub open spec fn spec_normalize_tag(s: Seq<char>) -> Seq<char> {
    if spec_has_prefix(s, "app-v"@) {
        s.skip(5)
    } else if spec_has_prefix(s, "app-"@) {
        s.skip(4)
    } else if spec_has_prefix(s, "v"@) {
        s.skip(1)
    } else {
        s
    }
}

/// Strips one known prefix from a raw release tag, most specific first.
pub fn normalize_version_tag(tag: &str) -> (r: String)
    ensures
        r@ == spec_normalize_tag(tag@),
{
    proof {
        reveal_strlit("app-v");
        reveal_strlit("app-");
        reveal_strlit("v");
    }
    let n = tag.unicode_len();
    if str_has_prefix(tag, "app-v") {
        let rest = tag.substring_char(5, n);
        assert(rest@ =~= tag@.skip(5));
        rest.to_owned()
    } else if str_has_prefix(tag, "app-") {
        let rest = tag.substring_char(4, n);
        assert(rest@ =~= tag@.skip(4));
        rest.to_owned()
    } else if str_has_prefix(tag, "v") {
        let rest = tag.substring_char(1, n);
        assert(rest@ =~= tag@.skip(1));
        rest.to_owned()
    } else {
        tag.to_owned()
    }
}

/// Exactly one prefix is stripped, and the most specific one is tried first:
/// a tag starting with `"app-v"` loses those five characters and nothing
/// more, even though `"app-"` and `"v"` also match it; the shorter prefixes
/// apply only when no longer one does.
pub proof fn lemma_normalize_strips_longest_prefix_first(s: Seq<char>)
    ensures
        spec_has_prefix(s, "app-v"@) ==> spec_normalize_tag(s) == s.skip(5),
        !spec_has_prefix(s, "app-v"@) && spec_has_prefix(s, "app-"@) ==> spec_normalize_tag(s)
            == s.skip(4),
        !spec_has_prefix(s, "app-"@) && spec_has_prefix(s, "v"@) ==> spec_normalize_tag(s)
            == s.skip(1),
        !spec_has_prefix(s, "v"@) && !spec_has_prefix(s, "app-"@) ==> spec_normalize_tag(s) == s,
{
    reveal_strlit("app-v");
    reveal_strlit("app-");
    reveal_strlit("v");
    if spec_has_prefix(s, "app-v"@) {
        assert(spec_has_prefix(s, "app-"@)) by {
            assert("app-"@ =~= s.subrange(0, 4));
        }
    }
}

} // verus!
