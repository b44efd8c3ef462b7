//! Core logic of a canvas feedback-trail renderer: the interaction state
//! machine fed by mouse events, the derivation of the shader uniforms from
//! that state, and the byte layout of the uniform buffer.
//!
//! The GPU device, surface and browser event plumbing live outside this
//! library; they exchange plain values with it.

pub mod codec;
pub mod event;
pub mod interaction;
pub mod uniforms;

pub use event::CanvasEvent;
pub use interaction::InteractionState;
pub use uniforms::Uniforms;
