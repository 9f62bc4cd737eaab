pub mod actions;
pub mod alert;
pub mod element;
pub mod frame;
pub mod lookup;
pub mod navigation;
pub mod session;
