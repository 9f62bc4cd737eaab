pub mod async_script;
pub mod id_map;
pub mod platform;
pub mod server;
pub mod text;
pub mod webdriver;
