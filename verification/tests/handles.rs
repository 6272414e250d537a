use handle_bridge::CompactHandle;
use handle_bridge::FullHandle;
use handle_bridge::Runtime;

#[test]
fn null_compact_handle_owns_nothing() {
    let rt: Runtime<u32> = Runtime::new();
    let h: CompactHandle<u32> = CompactHandle::null();
    assert!(h.is_null());
    assert_eq!(h.as_ref(&rt), None);
    assert_eq!(rt.live_objects(), 0);
}

#[test]
fn null_full_handle_owns_nothing() {
    let rt: Runtime<i64> = Runtime::new();
    let h: FullHandle<i64> = FullHandle::null();
    assert!(h.is_null());
    assert_eq!(h.as_ref(&rt), None);
    assert_eq!(rt.live_objects(), 0);
}

#[test]
fn new_compact_handle_owns_its_value() {
    let mut rt: Runtime<u32> = Runtime::new();
    let h = CompactHandle::new(&mut rt, 7);
    assert!(!h.is_null());
    assert_eq!(h.as_ref(&rt), Some(&7));
    assert_eq!(rt.live_objects(), 1);
    assert!(h.release(&mut rt));
    assert_eq!(rt.live_objects(), 0);
}

#[test]
fn new_full_handle_owns_its_value() {
    let mut rt: Runtime<bool> = Runtime::new();
    let h = FullHandle::new(&mut rt, true);
    assert!(!h.is_null());
    assert_eq!(h.as_ref(&rt), Some(&true));
    assert!(h.release(&mut rt));
}

#[test]
fn new_string_handle_owns_its_value() {
    let mut rt: Runtime<String> = Runtime::new();
    let h = CompactHandle::new(&mut rt, String::from("abc"));
    assert_eq!(h.as_ref(&rt).map(|s| s.as_str()), Some("abc"));
    assert!(h.release(&mut rt));
}

#[test]
fn clone_observes_the_same_object() {
    let mut rt: Runtime<u32> = Runtime::new();
    let h = CompactHandle::new(&mut rt, 5);
    let c = h.clone_in(&mut rt);
    // Both owners observe the same slot, hence the same object.
    assert_eq!(h.as_ref(&rt), c.as_ref(&rt));
    assert_eq!(rt.refcount(0), 2);
    // Dropping one owner does not invalidate the other.
    assert!(!h.release(&mut rt));
    assert_eq!(c.as_ref(&rt), Some(&5));
    assert_eq!(rt.live_objects(), 1);
    assert!(c.release(&mut rt));
    assert_eq!(rt.live_objects(), 0);
}

#[test]
fn release_fires_once_and_frees_at_zero() {
    let mut rt: Runtime<u32> = Runtime::new();
    let h = FullHandle::new(&mut rt, 9);
    let c1 = h.clone_in(&mut rt);
    let c2 = c1.clone_in(&mut rt);
    assert_eq!(rt.refcount(0), 3);
    // Each handle is consumed by its release, so each fires exactly once;
    // only the last of the three frees the object.
    assert!(!h.release(&mut rt));
    assert!(!c1.release(&mut rt));
    assert_eq!(rt.live_objects(), 1);
    assert!(c2.release(&mut rt));
    assert_eq!(rt.refcount(0), 0);
    assert_eq!(rt.live_objects(), 0);
}

#[test]
fn releasing_null_reports_nothing_freed() {
    let mut rt: Runtime<u32> = Runtime::new();
    let h: CompactHandle<u32> = CompactHandle::null();
    let c = h.clone_in(&mut rt);
    assert!(c.is_null());
    assert!(!h.release(&mut rt));
    assert!(!c.release(&mut rt));
    assert_eq!(rt.live_objects(), 0);
}

#[test]
fn null_deref_diagnostic_names_the_pointee() {
    assert_eq!(
        CompactHandle::<u32>::null_deref_message(),
        "called deref on a null CompactHandle<u32>"
    );
    assert_eq!(
        FullHandle::<i64>::null_deref_message(),
        "called deref on a null FullHandle<i64>"
    );
    assert_eq!(
        FullHandle::<String>::null_deref_message(),
        "called deref on a null FullHandle<String>"
    );
}

#[test]
fn deref_reads_the_owned_value() {
    let mut rt: Runtime<u16> = Runtime::new();
    let h = CompactHandle::new(&mut rt, 300);
    assert_eq!(*h.deref(&rt), 300);
    assert!(h.release(&mut rt));
}

#[test]
fn shared_releases_commute() {
    // Two contexts each hold a clone of the same object; whichever order
    // their releases land in, the object lives until both are gone and the
    // runtimes agree afterwards.
    let mut rt_a: Runtime<u64> = Runtime::new();
    let h_a = FullHandle::new(&mut rt_a, 11);
    let c_a = h_a.clone_in(&mut rt_a);
    let mut rt_b: Runtime<u64> = Runtime::new();
    let h_b = FullHandle::new(&mut rt_b, 11);
    let c_b = h_b.clone_in(&mut rt_b);

    assert!(!h_a.release(&mut rt_a));
    assert_eq!(c_a.as_ref(&rt_a), Some(&11));
    assert!(c_a.release(&mut rt_a));

    assert!(!c_b.release(&mut rt_b));
    assert_eq!(h_b.as_ref(&rt_b), Some(&11));
    assert!(h_b.release(&mut rt_b));

    assert_eq!(rt_a.refcount(0), rt_b.refcount(0));
    assert_eq!(rt_a.live_objects(), 0);
    assert_eq!(rt_b.live_objects(), 0);
}

#[test]
fn end_to_end_compact_u32() {
    let mut rt: Runtime<u32> = Runtime::new();
    let h = CompactHandle::<u32>::new(&mut rt, 42);
    let c1 = h.clone_in(&mut rt);
    let c2 = h.clone_in(&mut rt);
    assert!(!h.release(&mut rt));
    assert!(!c1.release(&mut rt));
    assert_eq!(c2.as_ref(&rt), Some(&42));
    assert!(c2.release(&mut rt));
    assert_eq!(rt.live_objects(), 0);
}
