//! Core of a presence light: decides what a WiZ smart bulb shows for the current
//! Microsoft Teams presence, and computes everything around that decision.
//!
//! [`state::AppState`] is the live state. Its methods, spread over the modules
//! by subject, are steps between pieces of outside work (files, sockets,
//! clocks), which is left to the caller.

pub mod autostart;
pub mod bulb;
pub mod calls;
pub mod clock;
pub mod commands;
pub mod config;
pub mod cycle;
pub mod events;
pub mod first_run;
pub mod json;
pub mod lines;
pub mod models;
pub mod monitor;
pub mod net;
pub mod paths;
pub mod pattern;
pub mod platform;
pub mod positions;
pub mod presence;
pub mod search;
pub mod settings;
pub mod state;
pub mod text;
pub mod watcher;
pub mod web;
