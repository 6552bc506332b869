pub mod integer;
pub mod model;
pub mod gameplay_attributes;
pub mod gameplay_style;
pub mod updatable;
pub mod gameplay_modes;
pub mod map;
