use repoweave::consent::{
    AbandonForeignTipConsent, AdoptDetachedConsent, AdoptDriftedConsent, DetachConsent,
    DiscardUnmergedConsent, DriftConsent, ReattachConsent, RegenerateDriftedConsent,
};

fn names(list: &[&str]) -> Vec<String> {
    list.iter().map(|n| n.to_string()).collect()
}

#[test]
fn consent_comes_from_the_flag_alone() {
    assert!(DetachConsent::from_flag(true).is_some());
    assert!(DetachConsent::from_flag(false).is_none());
    assert!(ReattachConsent::from_flag(true).is_some());
    assert!(ReattachConsent::from_flag(false).is_none());
    assert!(DiscardUnmergedConsent::from_flag(true).is_some());
    assert!(DiscardUnmergedConsent::from_flag(false).is_none());
    assert!(AdoptDetachedConsent::from_flag(true).is_some());
    assert!(AdoptDetachedConsent::from_flag(false).is_none());
    assert!(RegenerateDriftedConsent::from_flag(true).is_some());
    assert!(RegenerateDriftedConsent::from_flag(false).is_none());
    assert!(AdoptDriftedConsent::from_flag(true).is_some());
    assert!(AdoptDriftedConsent::from_flag(false).is_none());
}

#[test]
fn drift_is_consented_to_in_one_of_two_ways() {
    let regenerate = RegenerateDriftedConsent::from_flag(true).map(DriftConsent::Regenerate);
    assert!(matches!(regenerate, Some(DriftConsent::Regenerate(_))));
    let adopt = AdoptDriftedConsent::from_flag(true).map(DriftConsent::Adopt);
    assert!(matches!(adopt, Some(DriftConsent::Adopt(_))));
}

#[test]
fn abandonment_covers_exactly_the_named_repos() {
    let consent = AbandonForeignTipConsent::from_flag(&names(&["github/a/b", "github/c/d"]));
    assert!(consent.covers(&"github/a/b".to_owned()));
    assert!(consent.covers(&"github/c/d".to_owned()));
    assert!(!consent.covers(&"github/a".to_owned()));
    assert!(!consent.covers(&"github/a/b/".to_owned()));
    assert!(!consent.covers(&String::new()));
}

#[test]
fn abandonment_without_names_covers_nothing() {
    let consent = AbandonForeignTipConsent::from_flag(&Vec::new());
    assert!(!consent.covers(&"github/a/b".to_owned()));
    assert!(!consent.covers(&String::new()));
}

#[test]
fn abandonment_reads_a_completed_path_as_the_repo() {
    let consent = AbandonForeignTipConsent::from_flag(&names(&[
        "./github/a/b/",
        "  (project) ",
        "././x//",
    ]));
    assert!(consent.covers(&"github/a/b".to_owned()));
    assert!(consent.covers(&"(project)".to_owned()));
    assert!(consent.covers(&"x".to_owned()));
    assert!(!consent.covers(&"./github/a/b/".to_owned()));
}
