//! A turn-based combat engine: a player and a randomly chosen opponent
//! exchange attack, block and heal actions across rounds until one side's
//! health reaches zero.
//!
//! The library holds the whole game logic: the stat model and its mutation
//! rules, the action resolver, the reply parser, the round orchestration with
//! its ordering tie-break, and the arena renderer. The messaging transport
//! (sending text, awaiting a reply) lives outside the library and hands it
//! plain values.

pub mod action;
pub mod engine;
pub mod entity;
pub mod input;
pub mod render;
pub mod rng;
pub mod stats;
pub mod text;
