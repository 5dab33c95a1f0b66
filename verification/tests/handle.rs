use arc_kind::ArcK;
use arc_kind::SharedPointerKind;
use std::sync::atomic::AtomicUsize;
use std::sync::atomic::Ordering;
use std::sync::Arc;

/// A payload that counts how often it is cloned and tells when it is freed.
struct Probe {
    value: i32,
    clones: Arc<AtomicUsize>,
    alive: Arc<()>,
}

impl Probe {
    fn new(value: i32) -> Probe {
        Probe { value, clones: Arc::new(AtomicUsize::new(0)), alive: Arc::new(()) }
    }
}

impl Clone for Probe {
    fn clone(&self) -> Probe {
        self.clones.fetch_add(1, Ordering::SeqCst);
        Probe { value: self.value, clones: self.clones.clone(), alive: self.alive.clone() }
    }
}

fn address_of<T>(r: &T) -> usize {
    std::ptr::from_ref(r).addr()
}

#[test]
fn scenario_construct_clone_drop_unwrap() {
    let a = ArcK::new::<i32>(5);
    assert_eq!(*a.deref::<i32>(), 5);
    assert_eq!(a.strong_count::<i32>(), 1);

    let mut b = a.clone::<i32>();
    assert_eq!(a.strong_count::<i32>(), 2);
    assert_eq!(b.strong_count::<i32>(), 2);

    b.drop::<i32>();
    assert_eq!(a.strong_count::<i32>(), 1);

    match a.try_unwrap::<i32>() {
        Ok(v) => assert_eq!(v, 5),
        Err(_) => panic!("the only owner must get its payload"),
    }
}

#[test]
fn new_then_deref_gives_the_value() {
    let mut a = ArcK::new::<String>(String::from("payload"));
    assert_eq!(a.deref::<String>(), "payload");
    a.drop::<String>();

    let mut b = ArcK::new::<Vec<u8>>(vec![1, 2, 3]);
    assert_eq!(b.deref::<Vec<u8>>(), &vec![1u8, 2, 3]);
    b.drop::<Vec<u8>>();

    let mut c = ArcK::new::<(u64, bool)>((u64::MAX, true));
    assert_eq!(*c.deref::<(u64, bool)>(), (u64::MAX, true));
    c.drop::<(u64, bool)>();
}

#[test]
fn new_handle_is_the_only_owner() {
    let mut a = ArcK::new::<u8>(0);
    assert!(a.is_live());
    assert_eq!(a.strong_count::<u8>(), 1);
    a.drop::<u8>();
}

#[test]
fn from_box_gives_the_boxed_value() {
    let mut a = ArcK::from_box::<String>(Box::new(String::from("boxed")));
    assert_eq!(a.deref::<String>(), "boxed");
    assert_eq!(a.strong_count::<String>(), 1);
    a.drop::<String>();
}

#[test]
fn from_box_moves_without_cloning() {
    let payload = Probe::new(3);
    let clones = payload.clones.clone();
    let mut a = ArcK::from_box::<Probe>(Box::new(payload));
    assert_eq!(a.deref::<Probe>().value, 3);
    assert_eq!(clones.load(Ordering::SeqCst), 0);
    a.drop::<Probe>();
}

#[test]
fn zero_sized_payload() {
    let mut a = ArcK::new::<()>(());
    assert_eq!(*a.deref::<()>(), ());
    assert_ne!(a.as_ptr::<()>(), 0);
    let mut b = a.clone::<()>();
    assert_eq!(a.strong_count::<()>(), 2);
    assert!(a == b);
    b.drop::<()>();
    a.drop::<()>();
}

#[test]
fn as_ptr_is_the_address_of_the_payload() {
    let mut a = ArcK::new::<u64>(77);
    let p = a.as_ptr::<u64>();
    assert_ne!(p, 0);
    assert_eq!(p, address_of(a.deref::<u64>()));
    assert_eq!(a.strong_count::<u64>(), 1);
    a.drop::<u64>();
}

#[test]
fn clone_adds_one_owner_of_the_same_allocation() {
    let mut a = ArcK::new::<String>(String::from("shared"));
    let before = a.strong_count::<String>();
    let mut b = a.clone::<String>();
    assert_eq!(b.strong_count::<String>(), before + 1);
    assert_eq!(a.strong_count::<String>(), before + 1);
    assert_eq!(a.deref::<String>(), b.deref::<String>());
    assert_eq!(a.as_ptr::<String>(), b.as_ptr::<String>());
    assert!(b.is_live());

    let mut c = b.clone::<String>();
    assert_eq!(a.strong_count::<String>(), 3);
    assert_eq!(c.as_ptr::<String>(), a.as_ptr::<String>());

    c.drop::<String>();
    b.drop::<String>();
    a.drop::<String>();
}

#[test]
fn clone_does_not_clone_the_payload() {
    let payload = Probe::new(1);
    let clones = payload.clones.clone();
    let mut a = ArcK::new::<Probe>(payload);
    let mut b = a.clone::<Probe>();
    assert_eq!(clones.load(Ordering::SeqCst), 0);
    b.drop::<Probe>();
    a.drop::<Probe>();
}

#[test]
fn try_unwrap_of_the_only_owner_returns_the_value() {
    let payload = Probe::new(9);
    let alive = payload.alive.clone();
    let clones = payload.clones.clone();
    let a = ArcK::new::<Probe>(payload);
    assert_eq!(Arc::strong_count(&alive), 2);
    match a.try_unwrap::<Probe>() {
        Ok(v) => {
            assert_eq!(v.value, 9);
            assert_eq!(clones.load(Ordering::SeqCst), 0);
            assert_eq!(Arc::strong_count(&alive), 2);
        }
        Err(_) => panic!("the only owner must get its payload"),
    }
    assert_eq!(Arc::strong_count(&alive), 1);
}

#[test]
fn try_unwrap_of_a_shared_handle_returns_the_handle() {
    let a = ArcK::new::<String>(String::from("kept"));
    let mut b = a.clone::<String>();
    let address = a.as_ptr::<String>();
    let count = a.strong_count::<String>();
    assert_eq!(count, 2);
    match a.try_unwrap::<String>() {
        Ok(_) => panic!("a shared payload must stay where it is"),
        Err(mut back) => {
            assert!(back.is_live());
            assert_eq!(back.strong_count::<String>(), count);
            assert_eq!(back.as_ptr::<String>(), address);
            assert_eq!(back.deref::<String>(), "kept");
            assert!(back == b);
            assert!(back.get_mut::<String>().is_none());
            back.drop::<String>();
        }
    }
    assert_eq!(b.strong_count::<String>(), 1);
    assert_eq!(b.deref::<String>(), "kept");
    b.drop::<String>();
}

#[test]
fn try_unwrap_succeeds_once_the_other_owner_is_gone() {
    let a = ArcK::new::<i64>(-4);
    let mut b = a.clone::<i64>();
    b.drop::<i64>();
    match a.try_unwrap::<i64>() {
        Ok(v) => assert_eq!(v, -4),
        Err(_) => panic!("the only owner must get its payload"),
    }
}

#[test]
fn get_mut_of_the_only_owner_changes_the_payload_in_place() {
    let mut a = ArcK::new::<Vec<i32>>(vec![1]);
    let address = a.as_ptr::<Vec<i32>>();
    match a.get_mut::<Vec<i32>>() {
        Some(v) => v.push(2),
        None => panic!("the only owner must get a borrow"),
    }
    assert_eq!(a.deref::<Vec<i32>>(), &vec![1, 2]);
    assert_eq!(a.as_ptr::<Vec<i32>>(), address);
    assert_eq!(a.strong_count::<Vec<i32>>(), 1);
    a.drop::<Vec<i32>>();
}

#[test]
fn get_mut_of_a_shared_handle_gives_nothing() {
    let mut a = ArcK::new::<i32>(1);
    let mut b = a.clone::<i32>();
    assert!(a.get_mut::<i32>().is_none());
    assert!(b.get_mut::<i32>().is_none());
    assert_eq!(*a.deref::<i32>(), 1);
    assert_eq!(a.strong_count::<i32>(), 2);
    assert!(a == b);
    b.drop::<i32>();
    assert!(a.get_mut::<i32>().is_some());
    a.drop::<i32>();
}

#[test]
fn get_mut_never_clones_the_payload() {
    let payload = Probe::new(1);
    let clones = payload.clones.clone();
    let mut a = ArcK::new::<Probe>(payload);
    let mut b = a.clone::<Probe>();
    assert!(a.get_mut::<Probe>().is_none());
    b.drop::<Probe>();
    assert!(a.get_mut::<Probe>().is_some());
    assert_eq!(clones.load(Ordering::SeqCst), 0);
    a.drop::<Probe>();
}

#[test]
fn make_mut_of_a_shared_handle_copies_on_write() {
    let payload = Probe::new(10);
    let clones = payload.clones.clone();
    let mut a = ArcK::new::<Probe>(payload);
    let mut b = a.clone::<Probe>();
    assert_eq!(a.strong_count::<Probe>(), 2);

    let borrowed = a.make_mut::<Probe>();
    assert_eq!(borrowed.value, 10);
    borrowed.value = 11;

    assert_eq!(clones.load(Ordering::SeqCst), 1);
    assert_eq!(a.strong_count::<Probe>(), 1);
    assert_eq!(b.strong_count::<Probe>(), 1);
    assert_eq!(a.deref::<Probe>().value, 11);
    assert_eq!(b.deref::<Probe>().value, 10);
    assert_ne!(a.as_ptr::<Probe>(), b.as_ptr::<Probe>());
    assert!(a != b);

    b.drop::<Probe>();
    a.drop::<Probe>();
}

#[test]
fn make_mut_of_the_only_owner_changes_the_payload_in_place() {
    let payload = Probe::new(20);
    let clones = payload.clones.clone();
    let mut a = ArcK::new::<Probe>(payload);
    let address = a.as_ptr::<Probe>();

    a.make_mut::<Probe>().value = 21;

    assert_eq!(clones.load(Ordering::SeqCst), 0);
    assert_eq!(a.as_ptr::<Probe>(), address);
    assert_eq!(a.strong_count::<Probe>(), 1);
    assert_eq!(a.deref::<Probe>().value, 21);
    a.drop::<Probe>();
}

#[test]
fn make_mut_leaves_a_handle_that_get_mut_can_borrow() {
    let mut a = ArcK::new::<String>(String::from("a"));
    let mut b = a.clone::<String>();
    a.make_mut::<String>().push('b');
    match a.get_mut::<String>() {
        Some(s) => s.push('c'),
        None => panic!("the handle owns its copy alone"),
    }
    assert_eq!(a.deref::<String>(), "abc");
    assert_eq!(b.deref::<String>(), "a");
    b.drop::<String>();
    a.drop::<String>();
}

#[test]
fn strong_count_follows_clones_and_drops() {
    let mut a = ArcK::new::<u8>(1);
    let mut held = Vec::new();
    for i in 0..5usize {
        assert_eq!(a.strong_count::<u8>(), i + 1);
        held.push(a.clone::<u8>());
    }
    assert_eq!(a.strong_count::<u8>(), 6);
    for (i, h) in held.iter_mut().enumerate() {
        h.drop::<u8>();
        assert_eq!(a.strong_count::<u8>(), 5 - i);
    }
    a.drop::<u8>();
}

#[test]
fn drop_gives_up_the_share_and_the_last_drop_frees_the_payload() {
    let payload = Probe::new(0);
    let alive = payload.alive.clone();
    let mut a = ArcK::new::<Probe>(payload);
    let mut b = a.clone::<Probe>();
    assert_eq!(Arc::strong_count(&alive), 2);

    a.drop::<Probe>();
    assert!(!a.is_live());
    assert!(b.is_live());
    assert_eq!(Arc::strong_count(&alive), 2);
    assert_eq!(b.strong_count::<Probe>(), 1);

    b.drop::<Probe>();
    assert!(!b.is_live());
    assert_eq!(Arc::strong_count(&alive), 1);
}

#[test]
fn a_dropped_handle_frees_nothing_twice() {
    let payload = Probe::new(0);
    let alive = payload.alive.clone();
    {
        let mut a = ArcK::new::<Probe>(payload);
        a.drop::<Probe>();
        assert_eq!(Arc::strong_count(&alive), 1);
    }
    assert_eq!(Arc::strong_count(&alive), 1);
}

#[test]
fn fmt_shows_the_name_of_the_kind_only() {
    let mut a = ArcK::new::<String>(String::from("secret"));
    assert_eq!(a.fmt(), "ArcK");
    a.drop::<String>();
    assert_eq!(a.fmt(), "ArcK");
}

#[test]
fn handles_cross_threads() {
    fn crosses_threads<K: Send + Sync>() {}
    crosses_threads::<ArcK>();
}

#[test]
fn handles_of_different_payloads_have_one_type() {
    let mut handles: Vec<ArcK> = vec![
        ArcK::new::<i32>(1),
        ArcK::new::<String>(String::from("two")),
        ArcK::from_box::<Vec<u8>>(Box::new(vec![3])),
    ];
    assert_eq!(*handles[0].deref::<i32>(), 1);
    assert_eq!(handles[1].deref::<String>(), "two");
    assert_eq!(handles[2].deref::<Vec<u8>>(), &vec![3u8]);
    handles[0].drop::<i32>();
    handles[1].drop::<String>();
    handles[2].drop::<Vec<u8>>();
    assert!(handles.iter().all(|h| !h.is_live()));
}

#[test]
fn a_handle_can_hold_a_handle() {
    let inner = ArcK::new::<i32>(7);
    let mut outer = ArcK::new::<ArcK>(inner);
    assert_eq!(*outer.deref::<ArcK>().deref::<i32>(), 7);
    assert_eq!(outer.deref::<ArcK>().strong_count::<i32>(), 1);
    match outer.get_mut::<ArcK>() {
        Some(held) => held.drop::<i32>(),
        None => panic!("the only owner must get a borrow"),
    }
    assert!(!outer.deref::<ArcK>().is_live());
    outer.drop::<ArcK>();
}

#[test]
fn reading_does_not_touch_the_count() {
    let mut a = ArcK::new::<i32>(3);
    let mut b = a.clone::<i32>();
    let _ = a.deref::<i32>();
    let _ = a.as_ptr::<i32>();
    let _ = a.strong_count::<i32>();
    let _ = a == b;
    let _ = a.fmt();
    assert_eq!(a.strong_count::<i32>(), 2);
    b.drop::<i32>();
    a.drop::<i32>();
}

#[test]
fn a_handle_that_leaves_its_scope_keeps_its_share() {
    let payload = Probe::new(0);
    let alive = payload.alive.clone();
    let mut a = ArcK::new::<Probe>(payload);
    {
        let b = a.clone::<Probe>();
        assert_eq!(b.strong_count::<Probe>(), 2);
    }
    assert_eq!(a.strong_count::<Probe>(), 2);
    assert!(a.get_mut::<Probe>().is_none());
    a.drop::<Probe>();
    assert_eq!(Arc::strong_count(&alive), 2);
}

#[test]
fn only_drop_frees_the_payload() {
    let payload = Probe::new(0);
    let alive = payload.alive.clone();
    {
        let _kept = ArcK::new::<Probe>(payload);
    }
    assert_eq!(Arc::strong_count(&alive), 2);

    let second = Probe::new(1);
    let alive_second = second.alive.clone();
    {
        let mut given_up = ArcK::new::<Probe>(second);
        given_up.drop::<Probe>();
    }
    assert_eq!(Arc::strong_count(&alive_second), 1);
}
