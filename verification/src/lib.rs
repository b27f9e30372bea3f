//! Uptime indicator: renders the system uptime for a panel icon and a popup,
//! and decides how the indicator reacts to the events its host delivers.

pub mod decimal;
pub mod indicator;
pub mod uptime;
