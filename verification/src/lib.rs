pub mod text;
pub mod sim;
pub mod splash;
pub mod controls;
