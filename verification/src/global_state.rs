//! The state assembled at startup and handed to the event loop.

use vstd::prelude::*;
use crate::settings::Settings;
use crate::window::GameWindow;

verus! {

pub struct GlobalState {
    pub settings: Settings,
    pub window: GameWindow,
}

} // verus!
