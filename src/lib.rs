//! A one-shot snapshot of descriptive facts about the local machine, and
//! its rendering as the lines of a short "system fetch" report.

pub mod decimal;
pub mod text;
pub mod platform;
pub mod system_info;
