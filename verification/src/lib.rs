//! Event-driven core of a terminal dashboard for Docker containers.

pub mod actions;
pub mod app_state;
pub mod config;
pub mod connection;
pub mod container_events;
pub mod dispatch;
pub mod event_loop;
pub mod executor;
pub mod format;
pub mod icons;
pub mod input;
pub mod json;
pub mod laws;
pub mod log_state;
pub mod log_view;
pub mod logs;
pub mod monitor;
pub mod navigation;
pub mod order;
pub mod pagination;
pub mod projection;
pub mod search;
pub mod search_input;
pub mod stats;
pub mod text;
pub mod time;
pub mod types;
pub mod validity;
pub mod view;
