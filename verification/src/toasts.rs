//! Toasts: the short messages shown over the canvas. A toast is described
//! here by what it is built with; a "singleton" toast slot makes sure that
//! at most one toast of its kind is queued at a time.
use vstd::prelude::*;

verus! {

/// The timeout of regular text toasts, in seconds.
pub const TEXT_TOAST_TIMEOUT_DEFAULT: u32 = 5;

/// How urgently a toast is shown.
#[derive(Clone, Copy, Debug, PartialEq, Eq, Structural)]
pub enum ToastPriority {
    Normal,
    High,
}

/// What a toast is built with.
#[derive(Clone, Debug)]
pub struct ToastSpec {
    pub title: String,
    /// The label of the toast's button, if it has one.
    pub button_label: Option<String>,
    pub priority: ToastPriority,
    /// Seconds until the toast goes away on its own; 0 keeps it until it is
    /// dismissed.
    pub timeout: u32,
}

/// A toast with a button: it shows `text` with high priority, has a button
/// labelled `button_label`, and goes away after `timeout` seconds.
pub fn toast_with_button(text: &str, button_label: &str, timeout: u32) -> (res: ToastSpec)
    ensures
        res.title@ == text@,
        res.button_label matches Some(l) && l@ == button_label@,
        res.priority == ToastPriority::High,
        res.timeout == timeout,
{
    ToastSpec {
        title: text.to_owned(),
        button_label: Some(button_label.to_owned()),
        priority: ToastPriority::High,
        timeout,
    }
}

/// A text toast: it shows `text` with high priority, without a button, and
/// goes away after `timeout` seconds.
pub fn text_toast(text: &str, timeout: u32) -> (res: ToastSpec)
    ensures
        res.title@ == text@,
        res.button_label is None,
        res.priority == ToastPriority::High,
        res.timeout == timeout,
{
    ToastSpec { title: text.to_owned(), button_label: None, priority: ToastPriority::High, timeout }
}

/// An error toast: it shows `error` with high priority, without a button,
/// and stays until it is dismissed.
pub fn error_toast(error: &str) -> (res: ToastSpec)
    ensures
        res.title@ == error@,
        res.button_label is None,
        res.priority == ToastPriority::High,
        res.timeout == 0,
{
    ToastSpec { title: error.to_owned(), button_label: None, priority: ToastPriority::High, timeout: 0 }
}

/// Dispatching `toast` into a singleton slot that held `held`: the slot
/// then holds `toast`, and the toast held before is handed back to be
/// dismissed. Returns (held after, to dismiss).
pub open spec fn singleton_step<T>(held: Option<T>, toast: T) -> (Option<T>, Option<T>) {
    (Some(toast), held)
}

/// Puts a newly dispatched `toast` into the singleton slot and returns the
/// toast that the slot held before, which the caller dismisses. The slot
/// always holds the most recently dispatched toast.
pub fn replace_singleton_toast<T>(slot: &mut Option<T>, toast: T) -> (previous: Option<T>)
    ensures
        (*final(slot), previous) == singleton_step(*old(slot), toast),
{
    let previous = slot.take();
    *slot = Some(toast);
    previous
}

/// Only one toast per slot is queued at a time: of two toasts dispatched
/// into one slot, the first is handed back for dismissal when the second
/// arrives, and the slot then holds the second.
pub proof fn lemma_singleton_keeps_only_latest<T>(held: Option<T>, first: T, second: T)
    ensures
        singleton_step(singleton_step(held, first).0, second) == (Some(second), Some(first)),
{
}

} // verus!
