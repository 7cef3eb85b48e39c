//! Global hotkeys: the accelerators that are registered at present, and
//! how a configured key becomes an accelerator.

use vstd::prelude::*;
use vstd::utf8::encode_utf8;
use crate::text::{trimmed, trimmed_of, uppercase, uppercase_of};

verus! {

/// The accelerators that are registered at present.
pub struct HotkeyManager {
    pub duration_shortcuts: Vec<String>,
    pub toggle_shortcut: Option<String>,
}

/// The accelerator of a trimmed key and its upper-cased form: nothing for
/// a blank key; else "Ctrl+" followed by the key, in its upper-cased form
/// where it is a single byte long.
pub open spec fn composed(inner: Seq<char>, upper: Seq<char>) -> Option<Seq<char>> {
    if inner.len() == 0 {
        None
    } else if encode_utf8(inner).len() == 1 {
        Some("Ctrl+"@ + upper)
    } else {
        Some("Ctrl+"@ + inner)
    }
}

/// The accelerator of a configured key: the key is trimmed first.
pub open spec fn accelerator_of(key: Seq<char>) -> Option<Seq<char>> {
    composed(trimmed_of(key), uppercase_of(trimmed_of(key)))
}

impl HotkeyManager {
    /// A manager with nothing registered.
    pub fn new() -> (m: HotkeyManager)
        ensures
            m.duration_shortcuts@.len() == 0,
            m.toggle_shortcut is None,
    {
        HotkeyManager { duration_shortcuts: Vec::new(), toggle_shortcut: None }
    }
}

/// Builds the accelerator of a trimmed key from the key and its
/// upper-cased form.
pub fn compose_accelerator(inner: &str, upper: &str) -> (r: Option<String>)
    ensures
        match composed(inner@, upper@) {
            Some(text) => r is Some && r.unwrap()@ == text,
            None => r is None,
        },
{
    if inner.is_empty() {
        return None;
    }
    let mut accelerator: String = String::from_str("Ctrl+");
    if inner.as_bytes().len() == 1 {
        accelerator.append(upper);
    } else {
        accelerator.append(inner);
    }
    Some(accelerator)
}

/// Turns a configured key into an accelerator.
pub fn normalize_accelerator(key: &str) -> (r: Option<String>)
    ensures
        match accelerator_of(key@) {
            Some(text) => r is Some && r.unwrap()@ == text,
            None => r is None,
        },
{
    let inner: &str = trimmed(key);
    let upper: String = uppercase(inner);
    compose_accelerator(inner, upper.as_str())
}

} // verus!
