pub mod commands;
pub mod keys;
pub mod styled;
pub mod overlays;
pub mod planner_overlay;
pub mod suggest;
pub mod glyphs;
pub mod app;
pub mod dispatch;
pub mod pages;
pub mod planner_panels;
pub mod screen;
pub mod review_views;
pub mod hub_views;
