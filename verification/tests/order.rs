use fsel::desktop::discover::executable_app;
use std::cmp::Ordering;

fn app(name: &str, pinned: bool, score: i64, history: u64) -> fsel::desktop::app::App {
    let mut a = executable_app(&b"/usr/bin/x".to_vec(), name);
    a.pinned = pinned;
    a.score = score;
    a.history = history;
    a
}

#[test]
fn pinned_apps_are_listed_first() {
    let pinned = app("zeta", true, 0, 0);
    let other = app("alpha", false, 100, 5);
    assert_eq!(pinned.compare(&other), Ordering::Less);
    assert_eq!(other.compare(&pinned), Ordering::Greater);
}

#[test]
fn higher_corrected_scores_come_first_then_names() {
    let often = app("beta", false, 3, 4);
    let rarely = app("alpha", false, 3, 1);
    assert_eq!(often.compare(&rarely), Ordering::Less);
    let a = app("Alpha", false, 0, 0);
    let b = app("beta", false, 0, 0);
    assert_eq!(a.compare(&b), Ordering::Less);
    assert_eq!(b.compare(&a), Ordering::Greater);
    let a2 = app("ALPHA", false, 0, 0);
    assert_eq!(a.compare(&a2), Ordering::Equal);
}

#[test]
fn equal_rank_ignores_ascii_case_of_names() {
    let a = app("Editor", false, 2, 3);
    let b = app("eDITOR", false, 6, 1);
    assert!(a.same_rank(&b));
    let c = app("Editor", true, 2, 3);
    assert!(!a.same_rank(&c));
    let d = app("Editors", false, 2, 3);
    assert!(!a.same_rank(&d));
}

#[test]
fn order_and_equality_agree_on_ascii_names_only() {
    let a = app("Editor", false, 2, 3);
    let b = app("eDITOR", false, 6, 1);
    assert_eq!(a.compare(&b) == Ordering::Equal, a.same_rank(&b));
    let upper = app("École", false, 0, 0);
    let lower = app("école", false, 0, 0);
    assert_eq!(upper.compare(&lower), Ordering::Equal);
    assert!(!upper.same_rank(&lower));
}
