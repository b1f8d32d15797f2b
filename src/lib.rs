//! Decision logic of a small OpenGL drawing-surface demo: the animated clear
//! color, the quad's geometry, shader build outcomes and the frame driver that
//! reacts to the surface's lifecycle events.
pub mod color;
pub mod geometry;
pub mod shader;
pub mod driver;
