//! The screens of the start menu.
use vstd::prelude::*;

verus! {

/// Which screen of the start menu is showing.
#[derive(Clone, Copy, Debug, PartialEq, Eq, Structural)]
pub enum MenuSubState {
    Main,
    SaveSelect,
    CreateSave,
    Settings,
    Credits,
}

} // verus!
