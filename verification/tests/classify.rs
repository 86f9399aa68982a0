use rustbuster::classify::classify;
use rustbuster::classify::Category;

#[test]
fn every_2xx_is_relevant_success() {
    for code in 200u16..=299 {
        let c = classify(code);
        assert_eq!(c.category, Category::Success);
        assert!(c.is_relevant);
    }
}

#[test]
fn key_redirects_are_relevant() {
    for code in [301u16, 302, 307, 308] {
        let c = classify(code);
        assert_eq!(c.category, Category::Redirect);
        assert!(c.is_relevant);
    }
}

#[test]
fn other_3xx_are_irrelevant_redirects() {
    for code in [300u16, 303, 304, 305, 306] {
        let c = classify(code);
        assert_eq!(c.category, Category::Redirect);
        assert!(!c.is_relevant);
    }
    for code in 300u16..=399 {
        let c = classify(code);
        assert_eq!(c.category, Category::Redirect);
        assert_eq!(c.is_relevant, matches!(code, 301 | 302 | 307 | 308));
    }
}

#[test]
fn auth_denials_are_relevant() {
    for code in [401u16, 403] {
        let c = classify(code);
        assert_eq!(c.category, Category::ForbiddenOrAuth);
        assert!(c.is_relevant);
    }
}

#[test]
fn everything_else_is_irrelevant_other() {
    for code in [0u16, 100, 101, 199, 400, 402, 404, 405, 418, 500, 502, 503, 999] {
        let c = classify(code);
        assert_eq!(c.category, Category::Other);
        assert!(!c.is_relevant);
    }
}

#[test]
fn classifier_is_idempotent() {
    for code in 0u16..1000 {
        assert_eq!(classify(code), classify(code));
    }
}
