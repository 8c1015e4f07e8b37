//! Logic of a small windowed renderer that draws one quad.
//!
//! The library holds everything the renderer decides or fixes ahead of time:
//! the window configuration, the shader sources and their status checks, the
//! quad's geometry and buffer layout, the response to window events, and the
//! per-frame command sequence. The thin binary around it performs the actual
//! windowing and graphics calls and feeds events back in as plain values.

pub mod events;
pub mod geometry;
pub mod render;
pub mod shader;
pub mod window;
