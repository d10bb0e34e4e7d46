use singleton::Singleton1;
use singleton::Singleton2;
use singleton::Singleton2Cell;
use singleton::Singleton3;
use singleton::Singleton4;
use singleton::Singleton5;

#[test]
fn test_singleton1() {
    let mut instance1 = Singleton1::new();
    instance1.get_instance();
    assert_eq!(instance1.get_data(), "Singleton1 instance");

    instance1.set_data("Updated data");
    instance1.get_instance();
    assert_eq!(instance1.get_data(), "Updated data");
}

#[test]
fn test_singleton2() {
    let cell = Singleton2Cell::new();
    let (mut instance2, guard) = Singleton2::get_instance(&cell);
    assert_eq!(instance2.get_data(), "Singleton2 instance");

    instance2.set_data("Updated data");
    instance2.release(guard); // release the guard

    let (instance2_again, guard) = Singleton2::get_instance(&cell);
    assert_eq!(instance2_again.get_data(), "Updated data");
    instance2_again.release(guard);
}

#[test]
fn test_singleton3() {
    let mut instance3 = Singleton3::new();
    instance3.get_instance();
    assert_eq!(instance3.get_data(), "Singleton3 instance");

    // the one-time-cell instance is immutable: there is no setter
}

#[test]
fn test_singleton4() {
    let instance4 = Singleton4::new();
    assert_eq!(instance4.get_instance().get_data(), "");
}

#[test]
fn test_singleton5() {
    let mut instance5 = Singleton5::new();
    instance5.get_instance();
    assert_eq!(instance5.get_data(), "Singleton5 instance");

    instance5.set_data("Updated data");
    instance5.get_instance();
    assert_eq!(instance5.get_data(), "Updated data");
}

#[test]
fn test_default_values() {
    let mut s1 = Singleton1::new();
    s1.get_instance();
    assert_eq!(s1.get_data(), "Singleton1 instance");

    let cell = Singleton2Cell::new();
    let (s2, guard) = Singleton2::get_instance(&cell);
    assert_eq!(s2.get_data(), "Singleton2 instance");
    s2.release(guard);

    let mut s3 = Singleton3::new();
    s3.get_instance();
    assert_eq!(s3.get_data(), "Singleton3 instance");

    let s4 = Singleton4::new();
    assert_eq!(s4.get_data(), "");

    let mut s5 = Singleton5::new();
    s5.get_instance();
    assert_eq!(s5.get_data(), "Singleton5 instance");
}

#[test]
fn test_identity_same_storage() {
    // a mutation made through the first access is visible through the second
    let mut s1 = Singleton1::new();
    s1.get_instance();
    s1.set_data("marked");
    s1.get_instance();
    assert_eq!(s1.get_data(), "marked");

    let cell = Singleton2Cell::new();
    let (mut s2, guard) = Singleton2::get_instance(&cell);
    s2.set_data("marked");
    s2.release(guard);
    let (s2_again, guard) = Singleton2::get_instance(&cell);
    assert_eq!(s2_again.get_data(), "marked");
    s2_again.release(guard);

    let mut s5 = Singleton5::new();
    s5.get_instance();
    s5.set_data("marked");
    s5.get_instance();
    assert_eq!(s5.get_data(), "marked");
}

#[test]
fn test_exactly_once_initialization() {
    let mut s3 = Singleton3::new();
    assert_eq!(s3.init_count(), 0);
    for _ in 0..10u32 {
        s3.get_instance();
        assert_eq!(s3.init_count(), 1);
        assert_eq!(s3.get_data(), "Singleton3 instance");
    }

    let mut s5 = Singleton5::new();
    assert_eq!(s5.init_count(), 0);
    for _ in 0..10u32 {
        s5.get_instance();
        assert_eq!(s5.init_count(), 1);
        assert_eq!(s5.get_data(), "Singleton5 instance");
    }
}

#[test]
fn test_immutability() {
    // one-time cell: repeated accesses never change the data
    let mut s3 = Singleton3::new();
    s3.get_instance();
    let before = s3.get_data();
    s3.get_instance();
    s3.get_instance();
    assert_eq!(s3.get_data(), before);

    // eager: init claims to set data and does not
    let s4 = Singleton4::new();
    let after_init = s4.init("anything");
    assert_eq!(after_init.get_data(), "");
    assert_eq!(s4.get_data(), "");
}

#[test]
fn test_mutual_exclusion_scenario() {
    // ten writers in turn: each holder's own read returns exactly the value
    // it just set, and the last write is what the next acquisition finds
    let cell = Singleton2Cell::new();
    for i in 0..10u32 {
        let (mut inst, guard) = Singleton2::get_instance(&cell);
        let data = format!("Thread {} data", i);
        inst.set_data(&data);
        assert_eq!(inst.get_data(), data);
        inst.release(guard);
    }
    let (inst, guard) = Singleton2::get_instance(&cell);
    assert_eq!(inst.get_data(), "Thread 9 data");
    inst.release(guard);
}

#[test]
fn test_init_if_absent() {
    // empty storage: first acquisition builds the default record
    let fresh = Singleton2::init_if_absent(None);
    assert_eq!(fresh.get_data(), "Singleton2 instance");

    // occupied storage: the stored record comes back exactly as it was
    let mut written = Singleton2::init_if_absent(None);
    written.set_data("kept across reacquisition");
    let reread = Singleton2::init_if_absent(Some(written));
    assert_eq!(reread.get_data(), "kept across reacquisition");
}

#[test]
fn test_destroy_notice() {
    let mut s5 = Singleton5::new();

    // nothing built yet: tearing down destroys nothing and fires no hook
    assert!(s5.destroy().is_none());

    let mut s5 = Singleton5::new();
    s5.get_instance();
    assert!(s5.is_init());
    let notice = s5.destroy();
    assert_eq!(notice.as_deref(), Some("Singleton5 is being dropped"));
    assert!(!s5.is_init());

    // the once-flag stays fired after teardown
    assert_eq!(s5.init_count(), 1);
    assert!(s5.destroy().is_none());
}
