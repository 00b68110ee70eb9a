use zui::{
    full_size_content_view_mask, Construction, ForeignCall, Runtime, ThreadAffinityError, Window,
    WindowBuilder, ZedString, DEFAULT_STYLE_MASK, FULL_SIZE_CONTENT_VIEW,
};

#[test]
fn build_off_ui_thread_issues_no_call() {
    let mut rt = Runtime::new();
    let title = ZedString::from_utf8(&mut rt, "Hello");
    let before = rt.calls().len();
    let mut builder = WindowBuilder::new();
    builder.title(title).titlebar_hidden(true);
    let r = builder.build(&mut rt, false);
    assert_eq!(r.err(), Some(ThreadAffinityError));
    assert_eq!(rt.calls().len(), before);
    assert_eq!(rt.object_count(), 1);
    assert_eq!(rt.depth(), 0);
}

#[test]
fn build_with_defaults() {
    let mut rt = Runtime::new();
    let window = Window::builder().build(&mut rt, true).unwrap();
    assert_eq!(window.handle().as_raw(), 0);
    assert_eq!(rt.count(0), 1);
    assert_eq!(rt.depth(), 0);
    assert_eq!(
        rt.calls(),
        &vec![
            ForeignCall::PushPool,
            ForeignCall::Construct { object: 0, what: Construction::Window { style_mask: 15 } },
            ForeignCall::PopPool,
        ]
    );
}

#[test]
fn build_with_title_and_hidden_titlebar() {
    let mut rt = Runtime::new();
    let title = ZedString::from_utf8(&mut rt, "Hello");
    let mut builder = WindowBuilder::new();
    builder.title(title).titlebar_hidden(true);
    let window = builder.build(&mut rt, true).unwrap();
    assert_eq!(
        rt.calls()[1..].to_vec(),
        vec![
            ForeignCall::PushPool,
            ForeignCall::Construct {
                object: 1,
                what: Construction::Window { style_mask: 15 | 0x8000 },
            },
            ForeignCall::SetTitle { window: 1, title: 0 },
            ForeignCall::SetTitlebarTransparent { window: 1, transparent: true },
            ForeignCall::PopPool,
        ]
    );
    window.release(&mut rt);
    assert_eq!(rt.count(1), 0);
    assert_eq!(rt.count(0), 1);
}

#[test]
fn explicit_style_mask_is_kept() {
    let mut builder = WindowBuilder::new();
    builder.style_mask(1);
    assert_eq!(builder.effective_style_mask(), 1);
    builder.titlebar_hidden(true);
    assert_eq!(builder.effective_style_mask(), 0x8001);
    builder.titlebar_hidden(false);
    assert_eq!(builder.effective_style_mask(), 1);
}

#[test]
fn default_style_mask_value() {
    assert_eq!(DEFAULT_STYLE_MASK, 15);
    assert_eq!(WindowBuilder::new().effective_style_mask(), 15);
}

#[test]
fn full_size_content_view_bit() {
    assert_eq!(full_size_content_view_mask(15, true), 0x800F);
    assert_eq!(full_size_content_view_mask(0x800F, false), 15);
    assert_eq!(full_size_content_view_mask(0x800F, true), 0x800F);
    assert_eq!(full_size_content_view_mask(0, false), 0);
    assert_eq!(full_size_content_view_mask(u64::MAX, false), u64::MAX & !FULL_SIZE_CONTENT_VIEW);
}

#[test]
fn window_mutators_issue_calls() {
    let mut rt = Runtime::new();
    let window = Window::builder().build(&mut rt, true).unwrap();
    let title = ZedString::from_utf8(&mut rt, "New");
    let before = rt.calls().len();
    window.set_title(&mut rt, &title);
    window.set_titlebar_hidden(&mut rt, 15, true);
    window.set_full_size_content_view(&mut rt, 0x800F, false);
    assert_eq!(
        rt.calls()[before..].to_vec(),
        vec![
            ForeignCall::SetTitle { window: 0, title: 1 },
            ForeignCall::SetStyleMask { window: 0, style_mask: 0x800F },
            ForeignCall::SetTitlebarTransparent { window: 0, transparent: true },
            ForeignCall::SetStyleMask { window: 0, style_mask: 15 },
        ]
    );
}

#[test]
fn window_clone_shares_object() {
    let mut rt = Runtime::new();
    let window = Window::builder().build(&mut rt, true).unwrap();
    let other = window.clone_in(&mut rt);
    assert_eq!(rt.count(0), 2);
    other.release(&mut rt);
    assert_eq!(rt.count(0), 1);
    let handle = window.into_handle();
    let back = Window::from_handle(handle);
    assert_eq!(back.handle().as_raw(), 0);
}

#[test]
fn style_mask_and_content_view_setters() {
    let mut rt = Runtime::new();
    let window = Window::builder().build(&mut rt, true).unwrap();
    let view = rt.adopt();
    let before = rt.calls().len();
    window.set_style_mask(&mut rt, 3);
    window.set_content_view(&mut rt, &view);
    assert_eq!(
        rt.calls()[before..].to_vec(),
        vec![
            ForeignCall::SetStyleMask { window: 0, style_mask: 3 },
            ForeignCall::SetContentView { window: 0, view: 1 },
        ]
    );
}

#[test]
fn default_builder_matches_new() {
    let mut rt = Runtime::new();
    let built = WindowBuilder::default().build(&mut rt, true).unwrap();
    assert_eq!(built.handle().as_raw(), 0);
    assert_eq!(
        rt.calls()[1],
        ForeignCall::Construct { object: 0, what: Construction::Window { style_mask: DEFAULT_STYLE_MASK } }
    );
}
