//! Conversion of Xenoverse 2 save files between the PS4 layout and the
//! PC-ready (editor) layout, with every byte of the conversion specified.

pub mod layout;
pub mod marker;
pub mod utils;
pub mod convert;
pub mod laws;
pub mod dispatch;
