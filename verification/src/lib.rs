//! Game logic of Pilot Garden: the rules behind digging, tools, gnomes,
//! the day/night alarm and the scene tagging, with their contracts.

pub mod audio;
pub mod digging;
pub mod dodgy;
pub mod gnomes;
pub mod input_mapping;
pub mod killer_arms;
pub mod menu;
pub mod point_raycast;
pub mod scene_tags;
pub mod surveillance;
pub mod text;
pub mod world_timer;
