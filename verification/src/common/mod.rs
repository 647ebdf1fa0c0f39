pub mod coords;
pub mod decoded_message;
pub mod decoder;
pub mod get_fields;
pub mod internal_message;
pub mod route;
pub mod waypoint;
