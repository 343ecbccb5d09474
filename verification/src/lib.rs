pub mod coordinate;
pub mod geo_location;
pub mod settings;
