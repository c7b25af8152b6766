//! Drawing to the boot framebuffer.
pub mod framebuffer;
