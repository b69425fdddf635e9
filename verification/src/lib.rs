//! Session rules, scene state and decision logic of a Pokemon Emerald engine.

pub mod route103_rival;
pub mod game_save;
pub mod wild_encounter;
pub mod white_out;
pub mod intro;
pub mod frame;
pub mod pack_path;
pub mod import_error;
pub mod import_rom;
pub mod wild_battle;
pub mod main_menu;
