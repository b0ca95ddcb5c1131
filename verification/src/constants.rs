//! Project information and fixed settings of the application.

use crate::enums::WindowType;
use crate::session::FloatPair;
use vstd::prelude::*;

verus! {

/// The vendor, in lower case ASCII letters.
pub const VENDOR: &'static str = "rizzen";

/// The name of the application.
pub const APPLICATION_NAME: &'static str = "Iced Application Framework";

/// The short name of the application.
pub const APPLICATION_NAME_SHORT: &'static str = "Iced AF";

/// The abbreviation of the application.
pub const APPLICATION_ABBREVIATION: &'static str = "iced_af";

/// The text size of the header of a tab.
pub const TAB_HEADER_SIZE: u16 = 32;

/// The padding of a tab.
pub const TAB_PADDING: u16 = 16;

/// The default geometry and decorations of a window type. Sizes are pairs
/// of single-precision values held by their bit patterns.
#[derive(Debug, Clone, Copy, PartialEq, Eq, Structural)]
pub struct WindowDefaultsData {
    pub size: FloatPair,
    pub size_max: FloatPair,
    pub size_min: FloatPair,
    pub resizable: bool,
    pub minimise: bool,
    pub maximise: bool,
}

/// The bit pattern of the single-precision value 120.
pub const F32_120: u32 = 0x42f0_0000;
/// The bit pattern of the single-precision value 200.
pub const F32_200: u32 = 0x4348_0000;
/// The bit pattern of the single-precision value 250.
pub const F32_250: u32 = 0x437a_0000;
/// The bit pattern of the single-precision value 300.
pub const F32_300: u32 = 0x4396_0000;
/// The bit pattern of the single-precision value 450.
pub const F32_450: u32 = 0x43e1_0000;
/// The bit pattern of the single-precision value 500.
pub const F32_500: u32 = 0x43fa_0000;
/// The bit pattern of the single-precision value 600.
pub const F32_600: u32 = 0x4416_0000;
/// The bit pattern of the single-precision value 1080.
pub const F32_1080: u32 = 0x4487_0000;
/// The bit pattern of the single-precision value 1920.
pub const F32_1920: u32 = 0x44f0_0000;

/// A fixed size, neither resizable, minimisable nor maximisable.
pub open spec fn fixed(size: FloatPair) -> WindowDefaultsData {
    WindowDefaultsData { size, size_max: size, size_min: size, resizable: false, minimise: false, maximise: false }
}

/// A main window's geometry: 500 by 250, from 300 by 250 up to 1920 by
/// 1080, resizable, minimisable and maximisable.
pub open spec fn main_window_defaults() -> WindowDefaultsData {
    WindowDefaultsData {
        size: FloatPair { first: F32_500, second: F32_250 },
        size_max: FloatPair { first: F32_1920, second: F32_1080 },
        size_min: FloatPair { first: F32_300, second: F32_250 },
        resizable: true,
        minimise: true,
        maximise: true,
    }
}

/// The default geometry of each window type.
pub open spec fn window_defaults(window_type: WindowType) -> WindowDefaultsData {
    match window_type {
        WindowType::About => fixed(FloatPair { first: F32_300, second: F32_250 }),
        WindowType::ConfirmExit => fixed(FloatPair { first: F32_300, second: F32_120 }),
        WindowType::FatalError => fixed(FloatPair { first: F32_500, second: F32_200 }),
        WindowType::Information => fixed(FloatPair { first: F32_600, second: F32_200 }),
        WindowType::Preferences => WindowDefaultsData {
            size: FloatPair { first: F32_500, second: F32_300 },
            size_max: FloatPair { first: F32_500, second: F32_500 },
            size_min: FloatPair { first: F32_300, second: F32_300 },
            resizable: false,
            minimise: false,
            maximise: false,
        },
        WindowType::UnsavedData => WindowDefaultsData {
            size: FloatPair { first: F32_450, second: F32_120 },
            size_max: FloatPair { first: F32_500, second: F32_120 },
            size_min: FloatPair { first: F32_300, second: F32_120 },
            resizable: false,
            minimise: false,
            maximise: false,
        },
        WindowType::Default => main_window_defaults(),
        WindowType::Main => main_window_defaults(),
    }
}

/// A fixed size window's defaults.
fn fixed_defaults(first: u32, second: u32) -> (data: WindowDefaultsData)
    ensures
        data == fixed(FloatPair { first, second }),
{
    let size = FloatPair { first, second };
    WindowDefaultsData { size, size_max: size, size_min: size, resizable: false, minimise: false, maximise: false }
}

/// The default geometry of a window type.
pub fn window_default_data(window_type: WindowType) -> (data: WindowDefaultsData)
    ensures
        data == window_defaults(window_type),
{
    match window_type {
        WindowType::About => fixed_defaults(F32_300, F32_250),
        WindowType::ConfirmExit => fixed_defaults(F32_300, F32_120),
        WindowType::FatalError => fixed_defaults(F32_500, F32_200),
        WindowType::Information => fixed_defaults(F32_600, F32_200),
        WindowType::Preferences => WindowDefaultsData {
            size: FloatPair { first: F32_500, second: F32_300 },
            size_max: FloatPair { first: F32_500, second: F32_500 },
            size_min: FloatPair { first: F32_300, second: F32_300 },
            resizable: false,
            minimise: false,
            maximise: false,
        },
        WindowType::UnsavedData => WindowDefaultsData {
            size: FloatPair { first: F32_450, second: F32_120 },
            size_max: FloatPair { first: F32_500, second: F32_120 },
            size_min: FloatPair { first: F32_300, second: F32_120 },
            resizable: false,
            minimise: false,
            maximise: false,
        },
        WindowType::Default | WindowType::Main => WindowDefaultsData {
            size: FloatPair { first: F32_500, second: F32_250 },
            size_max: FloatPair { first: F32_1920, second: F32_1080 },
            size_min: FloatPair { first: F32_300, second: F32_250 },
            resizable: true,
            minimise: true,
            maximise: true,
        },
    }
}

} // verus!
