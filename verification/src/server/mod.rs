pub mod handlers;
pub mod response;
