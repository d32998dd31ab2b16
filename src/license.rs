//! The license badge: three known licenses have a fixed badge, any other
//! text gets a badge that names it.

use vstd::prelude::*;
use vstd::utf8::is_ascii_chars;
use crate::text::same_text;

verus! {

/// What `str::to_lowercase` returns for a string with characters `s`.
pub uninterp spec fn lower_of(s: Seq<char>) -> Seq<char>;

/// The code of `c` with an ASCII capital letter moved to its small letter.
pub open spec fn ascii_fold(c: char) -> int {
    if 'A' <= c && c <= 'Z' {
        c as int + 32
    } else {
        c as int
    }
}

/// `r` is `s` with each ASCII capital letter made small.
pub open spec fn is_ascii_lowering(r: Seq<char>, s: Seq<char>) -> bool {
    &&& r.len() == s.len()
    &&& forall|i: int| 0 <= i < s.len() ==> #[trigger] r[i] as int == ascii_fold(s[i])
}

/// `a` and `b` differ at most in the case of ASCII letters.
pub open spec fn same_ignoring_case(a: Seq<char>, b: Seq<char>) -> bool {
    &&& a.len() == b.len()
    &&& forall|i: int| 0 <= i < a.len() ==> #[trigger] ascii_fold(a[i]) == ascii_fold(b[i])
}

/// Relies on `str::to_lowercase`: its result depends on the characters
/// alone, and on ASCII text it makes each capital letter small and leaves
/// every other character as it is.
#[verifier::external_body]
fn lowercase(s: &str) -> (r: String)
    ensures
        r@ == lower_of(s@),
        is_ascii_chars(s@) ==> is_ascii_lowering(r@, s@),
{
    s.to_lowercase()
}

pub open spec fn mit_badge() -> Seq<char> {
    "<img alt=\"License: MIT\" src=\"https://img.shields.io/badge/License-MIT-blue.svg\" />"@
}

pub open spec fn apache_badge() -> Seq<char> {
    "<img alt=\"License: Apache\" src=\"https://img.shields.io/badge/license-Apache%202-blue\" />"@
}

pub open spec fn gpl_badge() -> Seq<char> {
    "<img alt=\"License: GPL\" src=\"https://img.shields.io/badge/license-GPL-blue\" />"@
}

/// A badge that names `text` as label and as value.
pub open spec fn generic_badge(text: Seq<char>) -> Seq<char> {
    "<img alt=\"License: "@ + text + "\" src=\"https://img.shields.io/badge/License-"@ + text
        + "-blue\" />"@
}

/// Whether `lowered` is the key of a license with a fixed badge.
pub open spec fn is_known_license(lowered: Seq<char>) -> bool {
    lowered == "mit"@ || lowered == "apache"@ || lowered == "gpl"@
}

/// The badge for a license written `text`, whose lower-case form is `lowered`.
pub open spec fn license_fragment(lowered: Seq<char>, text: Seq<char>) -> Seq<char> {
    if lowered == "mit"@ {
        mit_badge()
    } else if lowered == "apache"@ {
        apache_badge()
    } else if lowered == "gpl"@ {
        gpl_badge()
    } else {
        generic_badge(text)
    }
}

/// The badge for a license written `text`, given its lower-case form.
pub fn badge_for(lowered: &str, text: &str) -> (r: String)
    ensures
        r@ == license_fragment(lowered@, text@),
{
    if same_text(lowered, "mit") {
        String::from_str(
            "<img alt=\"License: MIT\" src=\"https://img.shields.io/badge/License-MIT-blue.svg\" />",
        )
    } else if same_text(lowered, "apache") {
        String::from_str(
            "<img alt=\"License: Apache\" src=\"https://img.shields.io/badge/license-Apache%202-blue\" />",
        )
    } else if same_text(lowered, "gpl") {
        String::from_str(
            "<img alt=\"License: GPL\" src=\"https://img.shields.io/badge/license-GPL-blue\" />",
        )
    } else {
        let mut r = String::from_str("<img alt=\"License: ");
        r.append(text);
        r.append("\" src=\"https://img.shields.io/badge/License-");
        r.append(text);
        r.append("-blue\" />");
        r
    }
}

/// The badge for a license written `text` (already trimmed); the known
/// licenses are matched whatever the case of their letters.
pub fn license_badge(text: &str) -> (r: String)
    ensures
        r@ == license_fragment(lower_of(text@), text@),
        is_ascii_chars(text@) ==> is_ascii_lowering(lower_of(text@), text@),
{
    let lowered = lowercase(text);
    badge_for(lowered.as_str(), text)
}

/// A known license gets the same badge however its ASCII letters are cased.
pub proof fn lemma_known_license_ignores_case(
    a: Seq<char>,
    b: Seq<char>,
    lowered_a: Seq<char>,
    lowered_b: Seq<char>,
)
    requires
        is_ascii_lowering(lowered_a, a),
        is_ascii_lowering(lowered_b, b),
        same_ignoring_case(a, b),
        is_known_license(lowered_a),
    ensures
        is_known_license(lowered_b),
        license_fragment(lowered_a, a) == license_fragment(lowered_b, b),
{
    assert forall|i: int| 0 <= i < lowered_a.len() implies lowered_a[i] == lowered_b[i] by {
        assert(lowered_a[i] as int == ascii_fold(a[i]));
        assert(lowered_b[i] as int == ascii_fold(b[i]));
    }
    assert(lowered_a =~= lowered_b);
}

/// Any other license text appears twice in its badge: as label and as value.
pub proof fn lemma_other_license_named_twice(lowered: Seq<char>, text: Seq<char>)
    requires
        !is_known_license(lowered),
    ensures
        license_fragment(lowered, text) == "<img alt=\"License: "@ + text
            + "\" src=\"https://img.shields.io/badge/License-"@ + text + "-blue\" />"@,
{
}

} // verus!
