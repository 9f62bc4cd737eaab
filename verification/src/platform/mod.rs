pub mod arguments;
pub mod executor;
pub mod json_reply;
pub mod keys;
pub mod native;
pub mod script_laws;
pub mod scripts;
