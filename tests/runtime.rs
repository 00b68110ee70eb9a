use zui::{AutoreleasePool, Construction, ForeignCall, NativeHandle, Runtime};

fn new_object(rt: &mut Runtime) -> NativeHandle {
    rt.adopt()
}

#[test]
fn construct_hands_back_one_reference() {
    let mut rt = Runtime::new();
    let h = new_object(&mut rt);
    assert_eq!(h.as_raw(), 0);
    assert_eq!(rt.count(0), 1);
    assert_eq!(rt.object_count(), 1);
    assert_eq!(
        rt.calls(),
        &vec![ForeignCall::Construct { object: 0, what: Construction::Existing }]
    );
    let second = new_object(&mut rt);
    assert_eq!(second.as_raw(), 1);
}

#[test]
fn clone_then_drop_keeps_first_owner() {
    let mut rt = Runtime::new();
    let first = new_object(&mut rt);
    assert_eq!(rt.count(0), 1);
    let copy = first.clone_in(&mut rt);
    assert_eq!(rt.count(0), 2);
    assert_eq!(copy.as_raw(), first.as_raw());
    copy.release(&mut rt);
    assert_eq!(rt.count(0), 1);
    let again = first.clone_in(&mut rt);
    assert_eq!(rt.count(0), 2);
    again.release(&mut rt);
    first.release(&mut rt);
    assert_eq!(rt.count(0), 0);
    assert_eq!(
        rt.calls()[1..].to_vec(),
        vec![
            ForeignCall::Retain(0),
            ForeignCall::Release(0),
            ForeignCall::Retain(0),
            ForeignCall::Release(0),
            ForeignCall::Release(0),
        ]
    );
}

#[test]
fn owners_and_pool_release_once() {
    let mut rt = Runtime::new();
    let pool = rt.push_pool();
    let a = new_object(&mut rt);
    let b = a.clone_in(&mut rt);
    let c = a.clone_in(&mut rt);
    assert_eq!(rt.count(0), 3);
    assert_eq!(c.autorelease(&mut rt), 0);
    a.release(&mut rt);
    b.release(&mut rt);
    assert_eq!(rt.count(0), 1);
    rt.pop_pool(pool);
    assert_eq!(rt.count(0), 0);
    assert_eq!(rt.depth(), 0);
    let releases = rt.calls().iter().filter(|c| **c == ForeignCall::Release(0)).count();
    let autoreleases = rt.calls().iter().filter(|c| **c == ForeignCall::Autorelease(0)).count();
    let retains = rt.calls().iter().filter(|c| **c == ForeignCall::Retain(0)).count();
    assert_eq!(retains, 2);
    assert_eq!(releases + autoreleases, 3);
    assert_eq!(rt.calls().last(), Some(&ForeignCall::PopPool));
}

#[test]
fn inner_pool_releases_only_its_own() {
    let mut rt = Runtime::new();
    let outer = AutoreleasePool::new(&mut rt);
    let x = new_object(&mut rt);
    let y = new_object(&mut rt);
    x.autorelease(&mut rt);
    let inner = AutoreleasePool::new(&mut rt);
    assert_eq!(rt.depth(), 2);
    y.autorelease(&mut rt);
    inner.drain(&mut rt);
    assert_eq!(rt.count(0), 1);
    assert_eq!(rt.count(1), 0);
    outer.drain(&mut rt);
    assert_eq!(rt.count(0), 0);
    assert_eq!(rt.depth(), 0);
}

#[test]
fn pool_releases_each_deferred_reference() {
    let mut rt = Runtime::new();
    let pool = rt.push_pool();
    let a = new_object(&mut rt);
    let b = a.clone_in(&mut rt);
    a.autorelease(&mut rt);
    b.autorelease(&mut rt);
    assert_eq!(rt.count(0), 2);
    rt.pop_pool(pool);
    assert_eq!(rt.count(0), 0);
}

#[test]
fn retain_wrap_adds_a_reference() {
    let mut rt = Runtime::new();
    let pool = rt.push_pool();
    let a = new_object(&mut rt);
    let raw = a.autorelease(&mut rt);
    let kept = NativeHandle::retain_wrap(&mut rt, raw);
    assert_eq!(kept.as_raw(), raw);
    assert_eq!(rt.count(raw), 2);
    rt.pop_pool(pool);
    assert_eq!(rt.count(raw), 1);
    kept.release(&mut rt);
    assert_eq!(rt.count(raw), 0);
}

#[test]
fn wrap_and_into_raw_issue_no_call() {
    let mut rt = Runtime::new();
    let a = new_object(&mut rt);
    let raw = a.into_raw();
    let calls = rt.calls().len();
    let b = NativeHandle::wrap(raw);
    assert_eq!(b.as_raw(), raw);
    assert_eq!(rt.calls().len(), calls);
    assert_eq!(rt.count(raw), 1);
    b.release(&mut rt);
    assert_eq!(rt.count(raw), 0);
}

#[test]
fn new_runtime_is_empty() {
    let rt = Runtime::new();
    assert_eq!(rt.object_count(), 0);
    assert_eq!(rt.depth(), 0);
    assert!(rt.calls().is_empty());
}

#[test]
fn deferred_and_owner_queries() {
    let mut rt = Runtime::new();
    let pool = rt.push_pool();
    let a = new_object(&mut rt);
    let b = a.clone_in(&mut rt);
    assert_eq!(rt.deferred(0), 0);
    assert!(rt.has_owner(0));
    b.autorelease(&mut rt);
    assert_eq!(rt.deferred(0), 1);
    assert!(rt.has_owner(0));
    a.autorelease(&mut rt);
    assert_eq!(rt.deferred(0), 2);
    assert!(!rt.has_owner(0));
    assert!(!rt.has_owner(5));
    rt.pop_pool(pool);
    assert_eq!(rt.deferred(0), 0);
    assert_eq!(rt.count(0), 0);
}

#[test]
fn with_closes_the_pool_after_the_body() {
    let mut rt = Runtime::new();
    let kept = rt.adopt();
    let deferred = kept.clone_in(&mut rt);
    let (rt, raw) = AutoreleasePool::with(rt, move |mut inner| {
        assert_eq!(inner.depth(), 1);
        let raw = deferred.autorelease(&mut inner);
        assert_eq!(inner.count(raw), 2);
        (inner, raw)
    });
    assert_eq!(raw, 0);
    assert_eq!(rt.depth(), 0);
    assert_eq!(rt.count(0), 1);
    assert_eq!(rt.calls().last(), Some(&ForeignCall::PopPool));
    let mut rt = rt;
    kept.release(&mut rt);
    assert_eq!(rt.count(0), 0);
}
