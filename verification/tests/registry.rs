use std::cell::RefCell;
use std::rc::Rc;

use vtk_rs::CallbackRegistry;
use vtk_rs::EventCategory;
use vtk_rs::InteractorStyleCustom;

type PointerHandler = Box<dyn Fn(i32, i32)>;

#[test]
fn test_register_yields_distinct_increasing_nonzero_handles() {
    let mut registry: CallbackRegistry<u8> = CallbackRegistry::new();
    let mut handles = Vec::new();
    handles.push(registry.register_left_press(1));
    handles.push(registry.register_mouse_move(2));
    handles.push(registry.register_key_press(3));
    handles.push(registry.register_left_release(4));
    handles.push(registry.register_left_press(5));
    for i in 0..handles.len() {
        assert_ne!(handles[i], 0);
        for j in (i + 1)..handles.len() {
            assert!(handles[i] < handles[j]);
        }
    }
    assert_eq!(handles, vec![1, 2, 3, 4, 5]);
}

#[test]
fn test_dispatch_finds_exactly_the_registered_handler() {
    let mut registry: CallbackRegistry<&str> = CallbackRegistry::new();
    let first = registry.register_left_press("first");
    let second = registry.register_left_press("second");
    assert_eq!(registry.dispatch(EventCategory::LeftPress, first), Some(&"first"));
    assert_eq!(registry.dispatch(EventCategory::LeftPress, second), Some(&"second"));
}

#[test]
fn test_dispatch_zero_handle_is_noop_in_every_category() {
    let mut registry: CallbackRegistry<&str> = CallbackRegistry::new();
    registry.register_left_press("press");
    registry.register_left_release("release");
    registry.register_mouse_move("move");
    registry.register_key_press("key");
    assert!(registry.dispatch(EventCategory::LeftPress, 0).is_none());
    assert!(registry.dispatch(EventCategory::LeftRelease, 0).is_none());
    assert!(registry.dispatch(EventCategory::MouseMove, 0).is_none());
    assert!(registry.dispatch(EventCategory::KeyPress, 0).is_none());
}

#[test]
fn test_dispatch_unregistered_handle_is_noop() {
    let mut registry: CallbackRegistry<&str> = CallbackRegistry::new();
    let handle = registry.register_left_press("press");
    assert!(registry.dispatch(EventCategory::LeftPress, handle + 1).is_none());
    assert!(registry.dispatch(EventCategory::LeftPress, 42).is_none());
    assert!(registry.dispatch(EventCategory::MouseMove, handle).is_none());
}

#[test]
fn test_press_handler_appends_to_shared_log() {
    let log: Rc<RefCell<Vec<(i32, i32)>>> = Rc::new(RefCell::new(Vec::new()));
    let sink = log.clone();
    let mut registry: CallbackRegistry<PointerHandler> = CallbackRegistry::new();
    let handle = registry.register_left_press(Box::new(move |x, y| {
        sink.borrow_mut().push((x, y));
    }));

    if let Some(handler) = registry.dispatch(EventCategory::LeftPress, handle) {
        handler(10, 20);
    }
    assert_eq!(*log.borrow(), vec![(10, 20)]);

    assert!(registry.dispatch(EventCategory::LeftPress, 0).is_none());
    assert_eq!(*log.borrow(), vec![(10, 20)]);
}

#[test]
fn test_failing_handler_does_not_poison_later_dispatch() {
    // A handler's failure is reported to the dispatch boundary and
    // discarded there; the registry itself is read-only during dispatch,
    // so a later dispatch of another valid handle still succeeds.
    type FallibleHandler = Box<dyn Fn(i32, i32) -> Result<(), String>>;
    let log: Rc<RefCell<Vec<(i32, i32)>>> = Rc::new(RefCell::new(Vec::new()));
    let sink = log.clone();
    let mut registry: CallbackRegistry<FallibleHandler> = CallbackRegistry::new();
    let failing = registry.register_left_press(Box::new(|_x, _y| {
        Err(String::from("handler failed internally"))
    }));
    let appending = registry.register_left_press(Box::new(move |x, y| {
        sink.borrow_mut().push((x, y));
        Ok(())
    }));

    if let Some(handler) = registry.dispatch(EventCategory::LeftPress, failing) {
        let _ = handler(1, 2);
    }
    assert!(log.borrow().is_empty());

    if let Some(handler) = registry.dispatch(EventCategory::LeftPress, appending) {
        let _ = handler(3, 4);
    }
    assert_eq!(*log.borrow(), vec![(3, 4)]);
}

#[test]
fn test_press_and_move_handlers_stay_separate() {
    let mut registry: CallbackRegistry<&str> = CallbackRegistry::new();
    let mut style = InteractorStyleCustom::new();
    style.set_left_button_press_callback(&mut registry, "press handler");
    style.set_mouse_move_callback(&mut registry, "move handler");

    let press_handle = style.left_press_callback_id;
    let move_handle = style.mouse_move_callback_id;
    assert_ne!(press_handle, 0);
    assert_ne!(move_handle, 0);
    assert_ne!(press_handle, move_handle);

    assert_eq!(registry.dispatch(EventCategory::LeftPress, press_handle), Some(&"press handler"));
    assert_eq!(registry.dispatch(EventCategory::MouseMove, move_handle), Some(&"move handler"));
    assert!(registry.dispatch(EventCategory::MouseMove, press_handle).is_none());
    assert!(registry.dispatch(EventCategory::LeftPress, move_handle).is_none());
}

#[test]
fn test_style_starts_with_no_callbacks() {
    let style = InteractorStyleCustom::new();
    assert_eq!(style.left_press_callback_id, 0);
    assert_eq!(style.left_release_callback_id, 0);
    assert_eq!(style.mouse_move_callback_id, 0);
    assert_eq!(style.key_press_callback_id, 0);
}

#[test]
fn test_style_setters_fill_each_category() {
    let mut registry: CallbackRegistry<&str> = CallbackRegistry::new();
    let mut style = InteractorStyleCustom::new();
    style.set_left_button_press_callback(&mut registry, "press");
    style.set_left_button_release_callback(&mut registry, "release");
    style.set_mouse_move_callback(&mut registry, "move");
    style.set_key_press_callback(&mut registry, "key");

    assert_eq!(
        registry.dispatch(EventCategory::LeftPress, style.left_press_callback_id),
        Some(&"press")
    );
    assert_eq!(
        registry.dispatch(EventCategory::LeftRelease, style.left_release_callback_id),
        Some(&"release")
    );
    assert_eq!(
        registry.dispatch(EventCategory::MouseMove, style.mouse_move_callback_id),
        Some(&"move")
    );
    assert_eq!(
        registry.dispatch(EventCategory::KeyPress, style.key_press_callback_id),
        Some(&"key")
    );
}
