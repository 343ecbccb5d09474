pub mod url_config;
