//! Gameplay rules of the S&K Offroad sandbox: scoring, career and daily
//! goals, HUD mode cycles, the buddy-recovery wire protocol, asset manifest
//! validation and the procedural logo rasteriser.

pub mod xp;
pub mod text;
pub mod codec;
pub mod recovery;
pub mod logo;
pub mod json;
pub mod manifest;
pub mod career;
pub mod daily;
pub mod challenges;
pub mod modes;
pub mod overlays;
pub mod drift;
pub mod rng;
pub mod world;
pub mod demolition;
pub mod config;
pub mod ads;
pub mod glb;
