use codexium_core::{cmp_version, is_registry_update, parse_version_segments, ProviderRegistry};

fn registry(version: &str) -> ProviderRegistry {
    ProviderRegistry {
        version: version.to_string(),
        providers: vec![],
    }
}

#[test]
fn cmp_version_orders_numeric_segments() {
    assert_eq!(cmp_version("1.0.0", "1.0.1"), std::cmp::Ordering::Less);
    assert_eq!(cmp_version("1.2.0", "1.10.0"), std::cmp::Ordering::Less);
    assert_eq!(cmp_version("2.0.0", "1.9.9"), std::cmp::Ordering::Greater);
    assert_eq!(cmp_version("1.3.0", "1.3.0"), std::cmp::Ordering::Equal);
    assert_eq!(cmp_version("2", "2.0.0"), std::cmp::Ordering::Equal);
}

#[test]
fn is_registry_update_only_for_same_major_higher_sub() {
    let current = registry("1.2.0");
    // Same major, higher minor -> update.
    let fetched = registry("1.3.0");
    assert!(is_registry_update(&fetched, &current));
    // Different major -> never auto-update.
    let major_bump = registry("2.0.0");
    assert!(!is_registry_update(&major_bump, &current));
    // Lower version -> not an update.
    let older = registry("1.1.0");
    assert!(!is_registry_update(&older, &current));
}

#[test]
fn cmp_version_ignores_non_numeric_suffixes() {
    assert_eq!(cmp_version("1.2-beta", "1.2"), std::cmp::Ordering::Equal);
    assert_eq!(cmp_version("1.2rc1.3", "1.2.3"), std::cmp::Ordering::Equal);
    assert_eq!(cmp_version("v1.0", "1.0"), std::cmp::Ordering::Less);
    assert_eq!(cmp_version("", "0.0"), std::cmp::Ordering::Equal);
}

#[test]
fn parse_version_segments_skips_pieces_without_digits() {
    assert_eq!(parse_version_segments("1.x.20abc.3"), vec![1, 20, 3]);
    assert_eq!(parse_version_segments(""), Vec::<u64>::new());
    assert_eq!(parse_version_segments("18446744073709551615"), vec![u64::MAX]);
    assert_eq!(parse_version_segments("18446744073709551616.4"), vec![4]);
}

#[test]
fn cmp_version_is_antisymmetric_and_trailing_zero_neutral() {
    let pairs = [("1.0", "1.0.1"), ("3.2.1", "3.10"), ("7", "7.0.0.0")];
    for (a, b) in pairs {
        assert_eq!(cmp_version(a, b), cmp_version(b, a).reverse());
        let padded = format!("{a}.0");
        assert_eq!(cmp_version(&padded, b), cmp_version(a, b));
    }
}

#[test]
fn registry_update_is_strict_and_transitive() {
    let a = registry("1.4.0");
    let b = registry("1.3.5");
    let c = registry("1.3.0");
    assert!(!is_registry_update(&a, &a));
    assert!(is_registry_update(&a, &b));
    assert!(!is_registry_update(&b, &a));
    assert!(is_registry_update(&b, &c));
    assert!(is_registry_update(&a, &c));
}
