pub mod classic;
pub mod game;
pub mod text;
pub mod ui;
