//! Verified core of a terminal tool that controls monitors over DDC/CI.

pub mod app;
pub mod backend;
pub mod cache;
pub mod categories;
pub mod commands;
pub mod components;
pub mod effects;
pub mod input;
pub mod logging;
pub mod numbers;
pub mod screens;
pub mod styles;
pub mod text;
pub mod ui;
pub mod vcp;
pub mod worker;
