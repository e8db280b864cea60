use rust_secure_dependency_audit::license::{
    analyze_license, categorize_license, categorize_lowercase, is_copyleft, is_permissive,
    is_proprietary, license_matches, lowercase_license_matches,
};
use rust_secure_dependency_audit::{LicensePolicy, LicenseRisk};

fn policy() -> LicensePolicy {
    LicensePolicy::default()
}

#[test]
fn test_categorize_mit() {
    assert_eq!(categorize_license("MIT"), LicenseRisk::Permissive);
    assert_eq!(categorize_license("MIT OR Apache-2.0"), LicenseRisk::Permissive);
}

#[test]
fn test_categorize_apache() {
    assert_eq!(categorize_license("Apache-2.0"), LicenseRisk::Permissive);
}

#[test]
fn test_categorize_gpl() {
    assert_eq!(categorize_license("GPL-3.0"), LicenseRisk::Copyleft);
    assert_eq!(categorize_license("LGPL-2.1"), LicenseRisk::Copyleft);
    assert_eq!(categorize_license("AGPL-3.0"), LicenseRisk::Copyleft);
}

#[test]
fn test_categorize_unknown() {
    assert_eq!(categorize_license("CustomLicense"), LicenseRisk::Unknown);
}

#[test]
fn test_license_matches() {
    assert!(license_matches("MIT", "MIT"));
    assert!(license_matches("MIT OR Apache-2.0", "MIT"));
    assert!(license_matches("MIT OR Apache-2.0", "Apache"));
    assert!(!license_matches("GPL-3.0", "MIT"));
}

#[test]
fn test_analyze_with_policy() {
    let mut policy = LicensePolicy::default();
    policy.warn_on_copyleft = true;

    let (risk, warnings) = analyze_license(Some("GPL-3.0"), &policy);
    assert_eq!(risk, LicenseRisk::Copyleft);
    assert!(!warnings.is_empty());
}

#[test]
fn categorize_proprietary_and_lowercase_forms() {
    assert_eq!(categorize_license("All Rights Reserved"), LicenseRisk::Proprietary);
    assert_eq!(categorize_lowercase("mpl-2.0"), LicenseRisk::Copyleft);
    assert_eq!(categorize_lowercase("MPL-2.0"), LicenseRisk::Unknown);
    assert!(is_permissive("zlib"));
    assert!(is_copyleft("cc-by-sa-4.0"));
    assert!(is_proprietary("commercial"));
    assert!(!is_permissive("gpl-3.0"));
}

#[test]
fn permissive_takes_precedence_over_copyleft() {
    assert_eq!(categorize_license("MIT AND GPL-3.0"), LicenseRisk::Permissive);
}

#[test]
fn absent_license_is_unknown_with_warning() {
    let (risk, warnings) = analyze_license(None, &policy());
    assert_eq!(risk, LicenseRisk::Unknown);
    assert_eq!(warnings, vec!["No license information found".to_string()]);
    let mut quiet = policy();
    quiet.warn_on_unknown = false;
    let (risk, warnings) = analyze_license(None, &quiet);
    assert_eq!(risk, LicenseRisk::Unknown);
    assert!(warnings.is_empty());
}

#[test]
fn unknown_license_warns_when_asked() {
    let (risk, warnings) = analyze_license(Some("CustomLicense"), &policy());
    assert_eq!(risk, LicenseRisk::Unknown);
    assert_eq!(warnings, vec!["Unknown license: CustomLicense".to_string()]);
}

#[test]
fn forbidden_license_is_proprietary_and_stops() {
    let mut p = policy();
    p.forbidden_licenses = vec!["AGPL".to_string()];
    p.allowed_licenses = vec!["MIT".to_string()];
    let (risk, warnings) = analyze_license(Some("AGPL-3.0"), &p);
    assert_eq!(risk, LicenseRisk::Proprietary);
    assert_eq!(warnings, vec!["Uses forbidden license: AGPL-3.0".to_string()]);
}

#[test]
fn allow_list_miss_is_advisory() {
    let mut p = policy();
    p.allowed_licenses = vec!["MIT".to_string(), "Apache-2.0".to_string()];
    let (risk, warnings) = analyze_license(Some("GPL-3.0"), &p);
    assert_eq!(risk, LicenseRisk::Copyleft);
    assert_eq!(
        warnings,
        vec![
            "License GPL-3.0 not in allowed list".to_string(),
            "Copyleft license detected: GPL-3.0".to_string(),
        ]
    );
    let (risk, warnings) = analyze_license(Some("Apache-2.0 OR MIT"), &p);
    assert_eq!(risk, LicenseRisk::Permissive);
    assert!(warnings.is_empty());
}

#[test]
fn proprietary_always_warns() {
    let mut p = policy();
    p.warn_on_copyleft = false;
    p.warn_on_unknown = false;
    let (risk, warnings) = analyze_license(Some("Proprietary"), &p);
    assert_eq!(risk, LicenseRisk::Proprietary);
    assert_eq!(warnings, vec!["Proprietary license detected: Proprietary".to_string()]);
    let (risk, warnings) = analyze_license(Some("GPL-2.0"), &p);
    assert_eq!(risk, LicenseRisk::Copyleft);
    assert!(warnings.is_empty());
}

#[test]
fn spdx_parts_are_trimmed_and_split() {
    assert!(lowercase_license_matches("mit or apache-2.0", "apache-2.0"));
    assert!(!lowercase_license_matches("mit or apache-2.0", "t or a"));
    assert!(lowercase_license_matches("mit and  zlib ", "zlib"));
    assert!(!lowercase_license_matches("MIT", "mit"));
    assert!(license_matches("Apache-2.0 AND MIT", "mit"));
}
