//! The overlay that lists the important hotkeys.

pub mod binds;
pub mod flow;
pub mod layout;
pub mod layout_laws;
pub mod listing_laws;
pub mod name_laws;
pub mod names;
pub mod overlay;
pub mod row_laws;
pub mod rows;
pub mod section_laws;
pub mod sections;
