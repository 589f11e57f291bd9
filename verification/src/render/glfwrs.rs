//! What is known of the window.

use crate::util::{RectI, Vec2I};
use vstd::prelude::*;

verus! {

/// Window information ("winfo" for short): where the window is, how large,
/// and how it is presented.
#[derive(Debug, Clone, Copy, PartialEq, Eq, Structural)]
pub struct Winfo {
    pub bounds: RectI,
    pub floating: bool,
    pub decorated: bool,
}

/// What has to be set on the window to make it match new window
/// information. A field is `None` where the window already is as wanted.
#[derive(Debug, Clone, Copy, PartialEq, Eq, Structural)]
pub struct WindowUpdate {
    pub pos: Option<Vec2I>,
    pub size: Option<Vec2I>,
    pub decorated: Option<bool>,
    pub floating: Option<bool>,
}

/// The new value of a property where it differs from the current one.
pub open spec fn changed<T>(current: T, wanted: T) -> Option<T> {
    if wanted != current {
        Some(wanted)
    } else {
        None
    }
}

impl Winfo {
    /// The settings by which a window that is as `self` says becomes as
    /// `winfo` says: exactly the properties in which the two differ.
    pub open spec fn update_to(&self, winfo: Winfo) -> WindowUpdate {
        WindowUpdate {
            pos: changed(self.bounds.pos, winfo.bounds.pos),
            size: changed(self.bounds.dim, winfo.bounds.dim),
            decorated: changed(self.decorated, winfo.decorated),
            floating: changed(self.floating, winfo.floating),
        }
    }

    /// Takes over `winfo`, and returns what has to be set on the window for
    /// it: exactly the properties in which `winfo` differs from what was
    /// recorded before.
    pub fn update_from_winfo(&mut self, winfo: Winfo) -> (update: WindowUpdate)
        ensures
            update == old(self).update_to(winfo),
            *final(self) == winfo,
    {
        let update = WindowUpdate {
            pos: if winfo.bounds.pos != self.bounds.pos {
                Some(winfo.bounds.pos)
            } else {
                None
            },
            size: if winfo.bounds.dim != self.bounds.dim {
                Some(winfo.bounds.dim)
            } else {
                None
            },
            decorated: if winfo.decorated != self.decorated {
                Some(winfo.decorated)
            } else {
                None
            },
            floating: if winfo.floating != self.floating {
                Some(winfo.floating)
            } else {
                None
            },
        };
        *self = winfo;
        update
    }
}

} // verus!
