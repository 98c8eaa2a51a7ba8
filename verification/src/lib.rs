//! The placement engine and the tray model of a tiling window manager.
//!
//! Everything here decides; nothing here talks to the operating system. Work
//! that needs the system is described by a value (an action, a command, a
//! message) that the caller performs, handing the outcome back.

pub mod accounts;
pub mod action;
pub mod apply;
pub mod batch;
pub mod class_name;
pub mod cloak;
pub mod default_icon;
pub mod entries;
pub mod geometry;
pub mod icon;
pub mod icon_laws;
pub mod insets;
pub mod landing_laws;
pub mod menu_ids;
pub mod menu_laws;
pub mod nudge;
pub mod nudge_laws;
pub mod park;
pub mod pass;
pub mod pass_laws;
pub mod request_laws;
pub mod sets;
pub mod sizing;
pub mod sizing_laws;
pub mod state;
pub mod sync;
pub mod text;
pub mod tooltip;
pub mod tray_error;
pub mod tray_event;
pub mod tray_manager;
pub mod tray_menu;
pub mod tray_settings;
pub mod types;
