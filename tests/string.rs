use zui::{Construction, ForeignCall, Runtime, ZedString};

#[test]
fn from_utf8_keeps_text() {
    let mut rt = Runtime::new();
    let s = ZedString::from_utf8(&mut rt, "héllo wörld");
    assert_eq!(s.as_utf8_temp(), "héllo wörld");
    assert_eq!(s.to_utf8(), String::from("héllo wörld"));
}

#[test]
fn from_utf8_allocates_a_string_owned_once() {
    let mut rt = Runtime::new();
    let s = ZedString::from_utf8(&mut rt, "abc");
    assert_eq!(s.handle().as_raw(), 0);
    assert_eq!(rt.count(0), 1);
    assert_eq!(
        rt.calls(),
        &vec![ForeignCall::Construct {
            object: 0,
            what: Construction::String { text: String::from("abc") },
        }]
    );
    s.release(&mut rt);
    assert_eq!(rt.count(0), 0);
    assert_eq!(rt.calls().last(), Some(&ForeignCall::Release(0)));
}

#[test]
fn empty_string() {
    let mut rt = Runtime::new();
    let s = ZedString::from_utf8(&mut rt, "");
    assert_eq!(s.to_utf8(), "");
    assert!(s.as_utf8_temp().is_empty());
}

#[test]
fn owned_copy_outlives_value() {
    let mut rt = Runtime::new();
    let owned = {
        let s = ZedString::from_utf8(&mut rt, "title");
        let text = s.to_utf8();
        s.release(&mut rt);
        text
    };
    assert_eq!(owned, "title");
    assert_eq!(rt.count(0), 0);
}

#[test]
fn platform_string_is_the_same_type() {
    let mut rt = Runtime::new();
    let s: zui::PlatformString = ZedString::from_utf8(&mut rt, "abc");
    assert_eq!(s.to_utf8(), "abc");
}
