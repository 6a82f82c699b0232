//! Leaf widgets of a declarative user interface: an icon button and a toast.
//!
//! Rendering a widget produces a [`element::Div`]: a plain description of a
//! styled container and its content. Colors are named by semantic theme
//! tokens, which the host resolves against its current theme.

pub mod element;
pub mod icon_button;
pub mod children;
pub mod toast;
