//! The window and context configuration the renderer asks for.
//!
//! The renderer opens one windowed-mode window with a fixed title and size
//! and asks for a core-profile context of a fixed version. A configuration
//! with a zero dimension or an empty title is rejected up front; window
//! creation itself may still fail on the machine, and that failure is fatal.

use vstd::prelude::*;

verus! {

/// The context major version the renderer requests.
pub const CONTEXT_MAJOR: u32 = 3;

/// The context minor version the renderer requests.
pub const CONTEXT_MINOR: u32 = 3;

/// The width in logical pixels of the demo window.
pub const DEMO_WIDTH: u32 = 800;

/// The height in logical pixels of the demo window.
pub const DEMO_HEIGHT: u32 = 800;

/// Why a window configuration was rejected.
#[derive(Clone, Copy, Debug, PartialEq, Eq, Structural)]
pub enum ConfigError {
    /// The requested width is zero.
    ZeroWidth,
    /// The requested height is zero.
    ZeroHeight,
    /// The requested title is empty.
    EmptyTitle,
}

/// Everything the windowing layer needs to create the window and its
/// context.
#[derive(Clone, Debug, PartialEq, Eq)]
pub struct WindowConfig {
    /// The window's width in logical pixels.
    pub width: u32,
    /// The window's height in logical pixels.
    pub height: u32,
    /// The window's title.
    pub title: String,
    /// The requested context major version.
    pub context_major: u32,
    /// The requested context minor version.
    pub context_minor: u32,
    /// Whether a core-profile context is requested.
    pub core_profile: bool,
    /// Whether a forward-compatible context is requested; the windowing
    /// layer sets this on the one platform family that requires it.
    pub forward_compat: bool,
}

impl WindowConfig {
    /// A usable configuration: both dimensions are positive and the title is
    /// non-empty.
    pub open spec fn wf(self) -> bool {
        &&& self.width > 0
        &&& self.height > 0
        &&& self.title@.len() > 0
    }

    /// Build a configuration for a windowed-mode window of the given size
    /// and title, requesting the fixed core-profile context version. A zero
    /// width, a zero height and an empty title are rejected, in that order.
    pub fn new(width: u32, height: u32, title: String) -> (r: Result<WindowConfig, ConfigError>)
        ensures
            width == 0 <==> r == Err::<WindowConfig, ConfigError>(ConfigError::ZeroWidth),
            (width > 0 && height == 0) <==> r == Err::<WindowConfig, ConfigError>(
                ConfigError::ZeroHeight,
            ),
            (width > 0 && height > 0 && title@.len() == 0) <==> r == Err::<
                WindowConfig,
                ConfigError,
            >(ConfigError::EmptyTitle),
            (width > 0 && height > 0 && title@.len() > 0) <==> (r matches Ok(c) && c.wf()
                && c.width == width && c.height == height && c.title@ == title@ && c.context_major
                == CONTEXT_MAJOR && c.context_minor == CONTEXT_MINOR && c.core_profile
                && !c.forward_compat),
    {
        if width == 0 {
            Err(ConfigError::ZeroWidth)
        } else if height == 0 {
            Err(ConfigError::ZeroHeight)
        } else if title.as_str().is_empty() {
            Err(ConfigError::EmptyTitle)
        } else {
            Ok(
                WindowConfig {
                    width,
                    height,
                    title,
                    context_major: CONTEXT_MAJOR,
                    context_minor: CONTEXT_MINOR,
                    core_profile: true,
                    forward_compat: false,
                },
            )
        }
    }

    /// The same configuration with a forward-compatible context requested.
    pub fn with_forward_compat(self) -> (r: WindowConfig)
        ensures
            r == (WindowConfig { forward_compat: true, ..self }),
            self.wf() ==> r.wf(),
    {
        WindowConfig { forward_compat: true, ..self }
    }
}

/// The demo window: 800 by 800 logical pixels, a fixed greeting as title, a
/// core-profile context of the fixed version.
pub fn demo_config() -> (c: WindowConfig)
    ensures
        c.wf(),
        c.width == DEMO_WIDTH,
        c.height == DEMO_HEIGHT,
        c.title@ == "Hello, World!"@,
        c.context_major == CONTEXT_MAJOR,
        c.context_minor == CONTEXT_MINOR,
        c.core_profile,
        !c.forward_compat,
{
    proof {
        reveal_strlit("Hello, World!");
    }
    let title = "Hello, World!".to_owned();
    let r = WindowConfig::new(DEMO_WIDTH, DEMO_HEIGHT, title);
    match r {
        Ok(c) => c,
        Err(_) => vstd::pervasive::unreached(),
    }
}

} // verus!
