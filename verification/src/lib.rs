pub mod types;
pub mod math;
pub mod pad;
pub mod consts;
pub mod score_holder;
pub mod enemy_types;
pub mod formation;
pub mod framework;
pub mod effect;
pub mod collision;
pub mod ene_shot;
pub mod traj;
pub mod events;
pub mod rng;
pub mod enemy_base;
pub mod zako;
pub mod tractor_beam;
pub mod enemy;
pub mod owl;
pub mod appearance_manager;
pub mod attack_manager;
pub mod enemy_manager;
pub mod recaptured_fighter;
pub mod player;
pub mod myshot;
pub mod game_info;
pub mod game_manager;
pub mod ecs;
pub mod ecs_world;
pub mod ecs_player;
pub mod ecs_owl;
pub mod ecs_effect;
pub mod ecs_system;
pub mod scene;
pub mod traj_file;
pub mod edit_traj_manager;
pub mod laws;
pub mod galangua_app;
