//! Lumina: switching a Linux desktop between light and dark colour schemes,
//! by hand or on a daily clock schedule.

pub mod backends;
pub mod cli;
pub mod clock;
pub mod config;
pub mod daemon;
pub mod notifications;
pub mod scheduler;
pub mod status;
pub mod text;
pub mod theme;
pub mod utils;
