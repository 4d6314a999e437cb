//! Value-level model of the client-side drawing state of a 2D canvas
//! engine: colors, gradients, brush styles, canvas state, fonts and text
//! settings.

pub mod brush;
pub mod canvas;
pub mod color;
pub mod font;
pub mod gradient;
pub mod text;
