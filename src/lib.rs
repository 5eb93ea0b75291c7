//! A reference table of the 128 ASCII code points, laid out in side-by-side
//! column blocks, with the layout and the text of every line specified and
//! proved.

pub mod layout;
pub mod labels;
pub mod fields;
pub mod style;
pub mod render;
pub mod config;
