pub mod undo;
pub mod search;
pub mod highlight;
pub mod coalesce;
pub mod syntax;
pub mod actions;
pub mod menu;
pub mod input;
pub mod app;
