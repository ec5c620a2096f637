//! Class-name composition for Bulma components: typed style options are mapped
//! to Bulma's class tokens and joined into the `class` attribute of a
//! component's root element.

pub mod class;
pub mod color;
pub mod constants;
pub mod size;
pub mod element;
pub mod section;
pub mod notification;
