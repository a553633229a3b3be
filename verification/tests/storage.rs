use sprite_engine::storage::Storage;

#[test]
fn set_then_get_returns_stored_value() {
    let mut s = Storage::<u32>::new();
    let h1 = s.create();
    let _h2 = s.create();
    s.set(&h1, 12);
    assert_eq!(s.get(&h1), 12);
}

#[test]
fn create_gives_default_value() {
    let mut s = Storage::<u32>::new();
    let h = s.create();
    assert_eq!(s.get(&h), 0);
    let mut names = Storage::<String>::new();
    let n = names.create();
    assert_eq!(names.get(&n), String::new());
}

#[test]
fn create_gives_consecutive_ids() {
    let mut s = Storage::<u8>::new();
    let a = s.create();
    let b = s.create();
    let c = s.create();
    assert_eq!(a.id(), 0);
    assert_eq!(b.id(), 1);
    assert_eq!(c.id(), 2);
}

#[test]
fn set_leaves_other_handles_alone() {
    let mut s = Storage::<i64>::new();
    let a = s.create();
    let b = s.create();
    s.set(&a, -5);
    s.set(&b, 7);
    s.set(&a, 9);
    assert_eq!(s.get(&a), 9);
    assert_eq!(s.get(&b), 7);
}

#[test]
fn create_keeps_existing_values() {
    let mut s = Storage::<String>::new();
    let a = s.create();
    s.set(&a, String::from("fox"));
    let b = s.create();
    assert_eq!(s.get(&a), String::from("fox"));
    assert_eq!(s.get(&b), String::new());
}
