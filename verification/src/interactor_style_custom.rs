//! Per-object bookkeeping for a custom interaction style.
//!
//! One interaction-style object owns up to four callback handles, one per
//! event category, each `0` until a handler is registered. Setting a
//! callback registers the handler in a shared registry and records the
//! returned handle, which the native-facing layer then forwards to the
//! native style object so that event dispatch can find the handler later.
//! A handle, once set, is never unset for the life of the object.

use vstd::prelude::*;

use crate::registry::CallbackRegistry;
use crate::registry::EventCategory;
use crate::registry::register_step;

verus! {

/// The callback handles one interaction-style object has claimed in the
/// shared registry; `0` marks a category with no handler yet.
pub struct InteractorStyleCustom {
    /// Handle of the left-press handler, or `0`.
    pub left_press_callback_id: i64,
    /// Handle of the left-release handler, or `0`.
    pub left_release_callback_id: i64,
    /// Handle of the mouse-move handler, or `0`.
    pub mouse_move_callback_id: i64,
    /// Handle of the key-press handler, or `0`.
    pub key_press_callback_id: i64,
}

impl InteractorStyleCustom {
    /// A freshly created style has no callbacks configured.
    pub fn new() -> (style: Self)
        ensures
            style.left_press_callback_id == 0,
            style.left_release_callback_id == 0,
            style.mouse_move_callback_id == 0,
            style.key_press_callback_id == 0,
    {
        InteractorStyleCustom {
            left_press_callback_id: 0,
            left_release_callback_id: 0,
            mouse_move_callback_id: 0,
            key_press_callback_id: 0,
        }
    }

    /// Registers a handler for left mouse-button press events and records
    /// its handle; the other categories keep their handles.
    pub fn set_left_button_press_callback<T>(
        &mut self,
        registry: &mut CallbackRegistry<T>,
        callback: T,
    )
        requires
            old(registry).wf(),
            old(registry).next_handle() < i64::MAX,
        ensures
            final(registry).wf(),
            register_step(
                *old(registry),
                *final(registry),
                EventCategory::LeftPress,
                callback,
                final(self).left_press_callback_id,
            ),
            final(self).left_press_callback_id != 0,
            final(self).left_release_callback_id == old(self).left_release_callback_id,
            final(self).mouse_move_callback_id == old(self).mouse_move_callback_id,
            final(self).key_press_callback_id == old(self).key_press_callback_id,
    {
        let id = registry.register_left_press(callback);
        self.left_press_callback_id = id;
    }

    /// Registers a handler for left mouse-button release events and
    /// records its handle; the other categories keep their handles.
    pub fn set_left_button_release_callback<T>(
        &mut self,
        registry: &mut CallbackRegistry<T>,
        callback: T,
    )
        requires
            old(registry).wf(),
            old(registry).next_handle() < i64::MAX,
        ensures
            final(registry).wf(),
            register_step(
                *old(registry),
                *final(registry),
                EventCategory::LeftRelease,
                callback,
                final(self).left_release_callback_id,
            ),
            final(self).left_release_callback_id != 0,
            final(self).left_press_callback_id == old(self).left_press_callback_id,
            final(self).mouse_move_callback_id == old(self).mouse_move_callback_id,
            final(self).key_press_callback_id == old(self).key_press_callback_id,
    {
        let id = registry.register_left_release(callback);
        self.left_release_callback_id = id;
    }

    /// Registers a handler for mouse-move events and records its handle;
    /// the other categories keep their handles.
    pub fn set_mouse_move_callback<T>(&mut self, registry: &mut CallbackRegistry<T>, callback: T)
        requires
            old(registry).wf(),
            old(registry).next_handle() < i64::MAX,
        ensures
            final(registry).wf(),
            register_step(
                *old(registry),
                *final(registry),
                EventCategory::MouseMove,
                callback,
                final(self).mouse_move_callback_id,
            ),
            final(self).mouse_move_callback_id != 0,
            final(self).left_press_callback_id == old(self).left_press_callback_id,
            final(self).left_release_callback_id == old(self).left_release_callback_id,
            final(self).key_press_callback_id == old(self).key_press_callback_id,
    {
        let id = registry.register_mouse_move(callback);
        self.mouse_move_callback_id = id;
    }

    /// Registers a handler for key-press events and records its handle;
    /// the other categories keep their handles.
    pub fn set_key_press_callback<T>(&mut self, registry: &mut CallbackRegistry<T>, callback: T)
        requires
            old(registry).wf(),
            old(registry).next_handle() < i64::MAX,
        ensures
            final(registry).wf(),
            register_step(
                *old(registry),
                *final(registry),
                EventCategory::KeyPress,
                callback,
                final(self).key_press_callback_id,
            ),
            final(self).key_press_callback_id != 0,
            final(self).left_press_callback_id == old(self).left_press_callback_id,
            final(self).left_release_callback_id == old(self).left_release_callback_id,
            final(self).mouse_move_callback_id == old(self).mouse_move_callback_id,
    {
        let id = registry.register_key_press(callback);
        self.key_press_callback_id = id;
    }
}

} // verus!
