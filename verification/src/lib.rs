//! A safe, verified binding layer over an immediate-mode graphics/windowing
//! surface.
//!
//! The native layer is modelled explicitly: every call that would cross the
//! foreign boundary is recorded as a [`native::NativeCall`] in the order it
//! would be issued, and the scoped handle types ([`window::Window`],
//! [`window::Pen`], [`window::Pen3D`]) guarantee by ownership and by proof
//! that the recorded call sequence is well nested: a window is opened once and
//! closed once, frames do not overlap, and 3D mode ends before the frame that
//! opened it. A driver that owns the real native library replays the recorded
//! calls and feeds the native layer's answers (poll results, the updated
//! camera) back in as plain values.

pub mod camera;
pub mod color;
pub mod native;
pub mod window;
