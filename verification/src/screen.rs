//! The size of the screen the overlay is on, as far as the host can tell.

use vstd::prelude::*;

verus! {

/// The width taken for the screen where the host names no monitor.
pub const DEFAULT_SCREEN_WIDTH: u32 = 1920;

/// The height taken for the screen where the host names no monitor.
pub const DEFAULT_SCREEN_HEIGHT: u32 = 1080;

/// The size of the screen, width first: that of the monitor the window is
/// on where the host knows it, else that of the primary monitor, else
/// 1920 by 1080.
pub open spec fn screen_size_of(current: Option<(u32, u32)>, primary: Option<(u32, u32)>) -> (
    u32,
    u32,
) {
    match current {
        Some(size) => size,
        None => match primary {
            Some(size) => size,
            None => (DEFAULT_SCREEN_WIDTH, DEFAULT_SCREEN_HEIGHT),
        },
    }
}

/// The size of the screen, from what the host says of the monitor the
/// window is on and of the primary monitor. The primary monitor matters
/// only where the first is unknown.
pub fn screen_size(current: Option<(u32, u32)>, primary: Option<(u32, u32)>) -> (size: (u32, u32))
    ensures
        size == screen_size_of(current, primary),
{
    match current {
        Some(size) => size,
        None => match primary {
            Some(size) => size,
            None => (DEFAULT_SCREEN_WIDTH, DEFAULT_SCREEN_HEIGHT),
        },
    }
}

} // verus!
