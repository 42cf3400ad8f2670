//! Verified core of the Stremio desktop shell: aspect-ratio modes, the
//! picture-in-picture overlay geometry and state machines, window-style
//! bookkeeping and the Discord presence session.
pub mod aspect;
pub mod clock;
pub mod geometry;
pub mod pip_layout;
pub mod pip_overlay;
pub mod player;
pub mod presence;
pub mod win32;
pub mod window_style;
