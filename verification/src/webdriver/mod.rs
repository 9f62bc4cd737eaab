pub mod element;
pub mod locator;
pub mod session;
