use rustcraft::names::{label, ThreadNames};

#[test]
fn names_set_get_replace() {
    let mut t = ThreadNames::new();
    assert_eq!(t.get(1), None);
    t.set(1, String::from("control"));
    t.set(2, String::from("render"));
    assert_eq!(t.get(1), Some(String::from("control")));
    assert_eq!(t.get(2), Some(String::from("render")));
    t.set(1, String::from("main"));
    assert_eq!(t.get(1), Some(String::from("main")));
    assert_eq!(t.get(3), None);
}

#[test]
fn label_of_unnamed_thread() {
    assert_eq!(label(None, 0), "Thread-0");
    assert_eq!(label(None, 42), "Thread-42");
    assert_eq!(label(None, u64::MAX), "Thread-18446744073709551615");
}

#[test]
fn label_of_named_thread() {
    assert_eq!(label(Some(String::from("render")), 42), "render");
}
