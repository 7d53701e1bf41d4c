pub mod audio;
pub mod model;
pub mod save;
pub mod screens;
pub mod sim;
pub mod ui;
