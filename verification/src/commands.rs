//! The application delegate marker.
//!
//! Command routing itself is host-toolkit glue and stays outside the
//! library; the host embeds [`Delegate`] in its delegate machinery and
//! calls into the engine for everything the commands decide.

use vstd::prelude::*;

verus! {

/// The marker the host's command-routing delegate is built around.
#[derive(Clone, Copy, Debug)]
pub struct Delegate;

impl Delegate {
    /// A fresh delegate.
    pub fn new() -> (r: Delegate)
        ensures
            r == Delegate,
    {
        Delegate
    }
}

} // verus!
