//! License analysis and risk categorization.
use vstd::prelude::*;
use vstd::string::*;
use crate::config::LicensePolicy;
use crate::text::{chars_of, contains, contains_chars, find, find_chars, lemma_find_from_occurs, sub_chars, trim, trim_chars};
use crate::types::LicenseRisk;

verus! {

/// What `str::to_lowercase` returns for `s`.
pub uninterp spec fn lower_of(s: Seq<char>) -> Seq<char>;

/// Relies on `str::to_lowercase`: the result depends on the characters of `s` alone.
#[verifier::external_body]
fn lowercase(s: &str) -> (r: String)
    ensures
        r@ == lower_of(s@),
{
    s.to_lowercase()
}

/// `l` names a permissive license.
pub open spec fn permissive(l: Seq<char>) -> bool {
    ||| contains(l, "mit"@) || contains(l, "apache"@) || contains(l, "bsd"@)
    ||| contains(l, "isc"@) || contains(l, "0bsd"@) || contains(l, "unlicense"@)
    ||| contains(l, "cc0"@) || contains(l, "wtfpl"@) || contains(l, "zlib"@)
    ||| contains(l, "boost"@)
}

/// `l` names a copyleft license.
pub open spec fn copyleft(l: Seq<char>) -> bool {
    ||| contains(l, "gpl"@) || contains(l, "lgpl"@) || contains(l, "agpl"@)
    ||| contains(l, "mpl"@) || contains(l, "eupl"@) || contains(l, "osl"@)
    ||| contains(l, "ms-pl"@) || contains(l, "cddl"@) || contains(l, "epl"@)
    ||| contains(l, "cc-by-sa"@)
}

/// `l` names a proprietary or restrictive license.
pub open spec fn proprietary(l: Seq<char>) -> bool {
    ||| contains(l, "proprietary"@) || contains(l, "commercial"@)
    ||| contains(l, "private"@) || contains(l, "all rights reserved"@)
}

/// The risk tier of an already lower-cased license string: permissive before
/// copyleft before proprietary before unknown.
pub open spec fn risk_tier(l: Seq<char>) -> LicenseRisk {
    if permissive(l) {
        LicenseRisk::Permissive
    } else if copyleft(l) {
        LicenseRisk::Copyleft
    } else if proprietary(l) {
        LicenseRisk::Proprietary
    } else {
        LicenseRisk::Unknown
    }
}

/// Some part of `s`, cut at each occurrence of `sep` and trimmed, contains `p`.
pub open spec fn some_part_contains(s: Seq<char>, sep: Seq<char>, p: Seq<char>) -> bool
    decreases s.len(),
    via some_part_contains_decreases
{
    if sep.len() == 0 {
        contains(trim(s), p)
    } else {
        match find(s, sep) {
            None => contains(trim(s), p),
            Some(i) => contains(trim(s.subrange(0, i)), p) || some_part_contains(
                s.subrange(i + sep.len(), s.len() as int),
                sep,
                p,
            ),
        }
    }
}

#[via_fn]
proof fn some_part_contains_decreases(s: Seq<char>, sep: Seq<char>, p: Seq<char>) {
    lemma_find_from_occurs(s, sep, 0);
}

/// A lower-cased license expression matches a lower-cased pattern: an
/// expression joined by " or " (else by " and ") matches when one of its
/// parts contains the pattern; any other expression when it contains it.
pub open spec fn matches_lowered(l: Seq<char>, p: Seq<char>) -> bool {
    if contains(l, " or "@) {
        some_part_contains(l, " or "@, p)
    } else if contains(l, " and "@) {
        some_part_contains(l, " and "@, p)
    } else {
        contains(l, p)
    }
}

/// A license expression matches a pattern, ignoring case.
pub open spec fn license_matches_spec(license: Seq<char>, pattern: Seq<char>) -> bool {
    matches_lowered(lower_of(license), lower_of(pattern))
}

/// `text` contains the literal `word`.
fn mentions(text: &Vec<char>, word: &str) -> (r: bool)
    ensures
        r == contains(text@, word@),
{
    contains_chars(text, &chars_of(word))
}

/// Check if an already lower-cased license is permissive.
pub fn is_permissive(license: &str) -> (r: bool)
    ensures
        r == permissive(license@),
{
    let l = chars_of(license);
    mentions(&l, "mit") || mentions(&l, "apache") || mentions(&l, "bsd") || mentions(&l, "isc")
        || mentions(&l, "0bsd") || mentions(&l, "unlicense") || mentions(&l, "cc0") || mentions(
        &l,
        "wtfpl",
    ) || mentions(&l, "zlib") || mentions(&l, "boost")
}

/// Check if an already lower-cased license is copyleft.
pub fn is_copyleft(license: &str) -> (r: bool)
    ensures
        r == copyleft(license@),
{
    let l = chars_of(license);
    mentions(&l, "gpl") || mentions(&l, "lgpl") || mentions(&l, "agpl") || mentions(&l, "mpl")
        || mentions(&l, "eupl") || mentions(&l, "osl") || mentions(&l, "ms-pl") || mentions(
        &l,
        "cddl",
    ) || mentions(&l, "epl") || mentions(&l, "cc-by-sa")
}

/// Check if an already lower-cased license is proprietary or restrictive.
pub fn is_proprietary(license: &str) -> (r: bool)
    ensures
        r == proprietary(license@),
{
    let l = chars_of(license);
    mentions(&l, "proprietary") || mentions(&l, "commercial") || mentions(&l, "private")
        || mentions(&l, "all rights reserved")
}

/// The risk tier of an already lower-cased license string.
pub fn categorize_lowercase(license_lower: &str) -> (r: LicenseRisk)
    ensures
        r == risk_tier(license_lower@),
{
    if is_permissive(license_lower) {
        LicenseRisk::Permissive
    } else if is_copyleft(license_lower) {
        LicenseRisk::Copyleft
    } else if is_proprietary(license_lower) {
        LicenseRisk::Proprietary
    } else {
        LicenseRisk::Unknown
    }
}

/// Categorize a license into a risk tier, ignoring case.
pub fn categorize_license(license: &str) -> (r: LicenseRisk)
    ensures
        r == risk_tier(lower_of(license@)),
{
    let lower = lowercase(license);
    categorize_lowercase(lower.as_str())
}

/// Some part of `s`, cut at each occurrence of the non-empty `sep` and trimmed, contains `p`.
fn any_part_contains(s: &Vec<char>, sep: &Vec<char>, p: &Vec<char>) -> (r: bool)
    requires
        sep@.len() > 0,
    ensures
        r == some_part_contains(s@, sep@, p@),
{
    let mut rest = sub_chars(s, 0, s.len());
    assert(rest@ =~= s@);
    loop
        invariant
            sep@.len() > 0,
            some_part_contains(s@, sep@, p@) == some_part_contains(rest@, sep@, p@),
        decreases rest@.len(),
    {
        proof {
            lemma_find_from_occurs(rest@, sep@, 0);
        }
        match find_chars(&rest, sep) {
            None => {
                return contains_chars(&trim_chars(&rest), p);
            },
            Some(i) => {
                assert(crate::text::occurs_at(rest@, sep@, i as int));
                let part = sub_chars(&rest, 0, i);
                if contains_chars(&trim_chars(&part), p) {
                    return true;
                }
                let n = rest.len();
                let start = i + sep.len();
                rest = sub_chars(&rest, start, n);
            },
        }
    }
}

/// Check whether a lower-cased license expression matches a lower-cased pattern.
pub fn lowercase_license_matches(license_lower: &str, pattern_lower: &str) -> (r: bool)
    ensures
        r == matches_lowered(license_lower@, pattern_lower@),
{
    let l = chars_of(license_lower);
    let p = chars_of(pattern_lower);
    let or_sep = chars_of(" or ");
    let and_sep = chars_of(" and ");
    proof {
        reveal_strlit(" or ");
        reveal_strlit(" and ");
    }
    if contains_chars(&l, &or_sep) {
        any_part_contains(&l, &or_sep, &p)
    } else if contains_chars(&l, &and_sep) {
        any_part_contains(&l, &and_sep, &p)
    } else {
        contains_chars(&l, &p)
    }
}

/// Check whether a license expression matches a pattern, ignoring case and
/// looking into each part of an SPDX " OR " / " AND " expression.
pub fn license_matches(license: &str, pattern: &str) -> (r: bool)
    ensures
        r == license_matches_spec(license@, pattern@),
{
    let l = lowercase(license);
    let p = lowercase(pattern);
    lowercase_license_matches(l.as_str(), p.as_str())
}

/// Some entry of `patterns` matches `license`.
pub open spec fn matches_some(license: Seq<char>, patterns: Seq<String>) -> bool {
    exists|i: int| 0 <= i < patterns.len() && license_matches_spec(license, #[trigger] patterns[i]@)
}

fn matches_any(license: &str, patterns: &Vec<String>) -> (r: bool)
    ensures
        r == matches_some(license@, patterns@),
{
    let mut i: usize = 0;
    while i < patterns.len()
        invariant
            i <= patterns@.len(),
            forall|j: int| 0 <= j < i ==> !license_matches_spec(license@, #[trigger] patterns@[j]@),
        decreases patterns@.len() - i,
    {
        if license_matches(license, patterns[i].as_str()) {
            return true;
        }
        i = i + 1;
    }
    false
}

pub open spec fn no_license_message() -> Seq<char> {
    "No license information found"@
}

pub open spec fn forbidden_message(l: Seq<char>) -> Seq<char> {
    "Uses forbidden license: "@ + l
}

pub open spec fn not_allowed_message(l: Seq<char>) -> Seq<char> {
    "License "@ + l + " not in allowed list"@
}

pub open spec fn copyleft_message(l: Seq<char>) -> Seq<char> {
    "Copyleft license detected: "@ + l
}

pub open spec fn unknown_message(l: Seq<char>) -> Seq<char> {
    "Unknown license: "@ + l
}

pub open spec fn proprietary_message(l: Seq<char>) -> Seq<char> {
    "Proprietary license detected: "@ + l
}

/// The tier that the policy assigns to a license, or to its absence.
pub open spec fn assessed_risk(license: Option<Seq<char>>, policy: LicensePolicy) -> LicenseRisk {
    match license {
        None => LicenseRisk::Unknown,
        Some(l) => if matches_some(l, policy.forbidden_licenses@) {
            LicenseRisk::Proprietary
        } else {
            risk_tier(lower_of(l))
        },
    }
}

/// The warnings that the policy raises on a license, or on its absence, in order.
pub open spec fn assessed_warnings(license: Option<Seq<char>>, policy: LicensePolicy) -> Seq<
    Seq<char>,
> {
    match license {
        None => if policy.warn_on_unknown {
            seq![no_license_message()]
        } else {
            seq![]
        },
        Some(l) => if matches_some(l, policy.forbidden_licenses@) {
            seq![forbidden_message(l)]
        } else {
            let advisory = if policy.allowed_licenses@.len() > 0 && !matches_some(
                l,
                policy.allowed_licenses@,
            ) {
                seq![not_allowed_message(l)]
            } else {
                seq![]
            };
            let tier = match risk_tier(lower_of(l)) {
                LicenseRisk::Copyleft => if policy.warn_on_copyleft {
                    seq![copyleft_message(l)]
                } else {
                    seq![]
                },
                LicenseRisk::Unknown => if policy.warn_on_unknown {
                    seq![unknown_message(l)]
                } else {
                    seq![]
                },
                LicenseRisk::Proprietary => seq![proprietary_message(l)],
                LicenseRisk::Permissive => seq![],
            };
            advisory + tier
        },
    }
}

/// The characters of an optional string.
pub open spec fn view_of(o: Option<&str>) -> Option<Seq<char>> {
    match o {
        Some(s) => Some(s@),
        None => None,
    }
}

/// The views of a list of strings.
pub open spec fn texts(v: Seq<String>) -> Seq<Seq<char>> {
    v.map_values(|s: String| s@)
}

fn joined(a: &str, b: &str) -> (r: String)
    ensures
        r@ == a@ + b@,
{
    let s = a.to_owned();
    s.concat(b)
}

/// Analyze a license against a policy: its risk tier and the warnings it raises.
pub fn analyze_license(license: Option<&str>, policy: &LicensePolicy) -> (r: (
    LicenseRisk,
    Vec<String>,
))
    ensures
        r.0 == assessed_risk(view_of(license), *policy),
        texts(r.1@) == assessed_warnings(view_of(license), *policy),
{
    let mut warnings: Vec<String> = Vec::new();
    let license_str = match license {
        None => {
            if policy.warn_on_unknown {
                warnings.push("No license information found".to_owned());
            }
            assert(texts(warnings@) =~= assessed_warnings(None, *policy));
            return (LicenseRisk::Unknown, warnings);
        },
        Some(l) => l,
    };
    if matches_any(license_str, &policy.forbidden_licenses) {
        warnings.push(joined("Uses forbidden license: ", license_str));
        assert(texts(warnings@) =~= assessed_warnings(Some(license_str@), *policy));
        return (LicenseRisk::Proprietary, warnings);
    }
    if policy.allowed_licenses.len() > 0 && !matches_any(license_str, &policy.allowed_licenses) {
        let head = joined("License ", license_str);
        warnings.push(head.concat(" not in allowed list"));
    }
    let ghost advisory = texts(warnings@);
    let risk = categorize_license(license_str);
    match risk {
        LicenseRisk::Copyleft => {
            if policy.warn_on_copyleft {
                warnings.push(joined("Copyleft license detected: ", license_str));
            }
        },
        LicenseRisk::Unknown => {
            if policy.warn_on_unknown {
                warnings.push(joined("Unknown license: ", license_str));
            }
        },
        LicenseRisk::Proprietary => {
            warnings.push(joined("Proprietary license detected: ", license_str));
        },
        LicenseRisk::Permissive => {},
    }
    assert(texts(warnings@) =~= assessed_warnings(Some(license_str@), *policy));
    (risk, warnings)
}

/// License classification is total: every license string, and its absence,
/// gets exactly one of the four tiers; an absent license is Unknown, with a
/// warning exactly when the policy asks for warnings on unknown licenses.
pub proof fn lemma_classification_total(license: Option<Seq<char>>, policy: LicensePolicy)
    ensures
        assessed_risk(license, policy) is Permissive || assessed_risk(license, policy) is Copyleft
            || assessed_risk(license, policy) is Proprietary || assessed_risk(
            license,
            policy,
        ) is Unknown,
        license is None ==> assessed_risk(license, policy) == LicenseRisk::Unknown,
        license is None ==> (assessed_warnings(license, policy) == if policy.warn_on_unknown {
            seq![no_license_message()]
        } else {
            Seq::<Seq<char>>::empty()
        }),
{
}

} // verus!
