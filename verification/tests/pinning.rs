use pinned_self_ref::heap_pinned::Test as HeapTest;
use pinned_self_ref::stack_pinned::{Test, UninitializedAccess};

#[test]
fn stack_lifecycle_reads_back_payload() {
    let mut t = Test::new("test1");
    t.pin_in_place(0x1000);
    t.init();
    assert_eq!(t.a(), "test1");
    assert_eq!(t.b().as_str(), "test1");
}

#[test]
fn stack_two_instances_report_independent_values() {
    let mut t1 = Test::new("test1");
    t1.pin_in_place(0x1000);
    t1.init();

    let mut t2 = Test::new("test2");
    t2.pin_in_place(0x2000);
    t2.init();

    assert_eq!(t1.a(), "test1");
    assert_eq!(t1.b().as_str(), "test1");
    assert_eq!(t2.a(), "test2");
    assert_eq!(t2.b().as_str(), "test2");
    assert_ne!(t1.b().as_str(), "test2");
    assert_ne!(t2.b().as_str(), "test1");
}

#[test]
fn stack_derived_read_before_init_fails_fast() {
    for payload in ["", "test1", "a longer payload value"] {
        let t = Test::new(payload);
        assert_eq!(t.b_checked(), Err(UninitializedAccess));
    }
}

#[test]
fn stack_derived_read_after_pin_but_before_init_fails_fast() {
    let mut t = Test::new("test1");
    t.pin_in_place(0x1000);
    assert_eq!(t.b_checked(), Err(UninitializedAccess));
}

#[test]
fn stack_init_twice_reads_back_the_same_value() {
    let mut t = Test::new("test1");
    t.pin_in_place(0x1000);
    t.init();
    let once = t.b().clone();
    t.init();
    assert_eq!(t.b(), &once);
    assert_eq!(t.b().as_str(), "test1");
}

#[test]
fn stack_empty_payload_round_trips() {
    let mut t = Test::new("");
    t.pin_in_place(0x1000);
    t.init();
    assert_eq!(t.a(), "");
    assert_eq!(t.b().as_str(), "");
}

#[test]
fn stack_reads_are_stable_across_observations() {
    let mut t = Test::new("test1");
    t.pin_in_place(0x1000);
    t.init();
    let first = t.b().clone();
    for _ in 0..4 {
        assert_eq!(t.a(), "test1");
        assert_eq!(t.b(), &first);
    }
}

#[test]
fn stack_checked_read_succeeds_after_init() {
    let mut t = Test::new("test1");
    t.pin_in_place(0x1000);
    t.init();
    assert_eq!(t.b_checked().map(|s| s.as_str()), Ok("test1"));
}

#[test]
fn heap_handle_reads_agree_immediately() {
    let t = HeapTest::new("test2");
    assert_eq!(t.a(), "test2");
    assert_eq!(t.b().as_str(), "test2");
}

#[test]
fn heap_two_instances_report_independent_values() {
    let t1 = HeapTest::new("test1");
    let t2 = HeapTest::new("test2");
    assert_eq!(t1.a(), "test1");
    assert_eq!(t1.b().as_str(), "test1");
    assert_eq!(t2.a(), "test2");
    assert_eq!(t2.b().as_str(), "test2");
    assert_ne!(t1.b().as_str(), "test2");
    assert_ne!(t2.b().as_str(), "test1");
}

#[test]
fn heap_reads_are_stable_across_lifetime() {
    let t = HeapTest::new("test2");
    let first = t.b().clone();
    for _ in 0..4 {
        assert_eq!(t.a(), "test2");
        assert_eq!(t.b(), &first);
    }
}

#[test]
fn heap_empty_payload_round_trips() {
    let t = HeapTest::new("");
    assert_eq!(t.a(), "");
    assert_eq!(t.b().as_str(), "");
}
