//! Verified core of a terminal physics sandbox: screen layout, frame text
//! and the keyboard controls.

pub mod text;
pub mod layout;
pub mod frame;
pub mod controls;
pub mod scene;
