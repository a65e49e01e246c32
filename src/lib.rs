//! A desktop reminders widget: the verified core of its desktop-level window
//! host (foreground-hook classification, write-once event proxy registry,
//! z-order enforcement and the main-loop state machine), together with the
//! reminder data model and the state logic of its UI components.

pub mod event;
pub mod visibility;
pub mod registry;
pub mod hook;
pub mod zorder;
pub mod main_loop;
pub mod tab;
pub mod time;
pub mod days;
pub mod reminder;
pub mod time_of_day;
pub mod components;
pub mod add_reminder;
pub mod decimal;
pub mod app;
pub mod ids;
