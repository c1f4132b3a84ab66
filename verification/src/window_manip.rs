use vstd::prelude::*;

use crate::errors::Error;
use crate::window::Window;

verus! {

/// Sets a window's title; backed by a name-property write on the wire.
pub trait TitleController {
    fn set_title(&self, window: &mut Window, title: &str) -> Result<(), Error>;
}

/// Maps or unmaps a window on screen.
pub trait VisibilityController {
    fn set_visible(&self, window: &mut Window, visible: bool) -> Result<(), Error>;
}

} // verus!
