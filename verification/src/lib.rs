pub mod hud;
pub mod main_scene;
pub mod mob;
pub mod player;
