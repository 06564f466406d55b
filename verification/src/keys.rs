//! The keys that the window manager grabs, and the modifier combinations
//! under which it grabs them.
use vstd::prelude::*;
use crate::xproto::{LOCK_MASK, MOD2_MASK, SHIFT_MASK};

verus! {

/// The names of the keys that the window manager grabs on the root window,
/// with the super and shift modifiers, when it starts.
pub open spec fn root_key_names_spec() -> Seq<&'static str> {
    seq!["Left", "Right", "Up", "Down", "Return", "q", "e", "1", "2", "3", "4", "5", "6", "7", "8", "9"]
}

pub fn root_key_names() -> (v: Vec<&'static str>)
    ensures
        v@ == root_key_names_spec(),
{
    let v = vec!["Left", "Right", "Up", "Down", "Return", "q", "e", "1", "2", "3", "4", "5", "6", "7", "8", "9"];
    v
}

/// The modifier combinations under which a key is grabbed for the
/// modifiers `m`: `m` itself, `m` without shift, and `m` with num lock or
/// caps lock held too.
pub open spec fn grab_modifiers(m: u32) -> Seq<u32> {
    seq![m, m & !SHIFT_MASK, m | MOD2_MASK, m | LOCK_MASK]
}

pub fn grab_modifier_list(m: u32) -> (v: Vec<u32>)
    ensures
        v@ == grab_modifiers(m),
{
    let v = vec![m, m & !SHIFT_MASK, m | MOD2_MASK, m | LOCK_MASK];
    v
}

} // verus!
