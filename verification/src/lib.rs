pub mod draft;
pub mod session;
pub mod text;
pub mod view;
