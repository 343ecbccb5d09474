pub mod geo_data;
