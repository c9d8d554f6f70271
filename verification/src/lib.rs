//! The live-state engine of a terminal dashboard for a small cluster.
//!
//! The crate keeps the authoritative model of nodes and services, merges
//! freshly polled metrics into it without disturbing identity or order,
//! lets the values drift gently while the backend is away, and maintains
//! bounded sample histories for trend graphs.
//!
//! All metric values are fixed-point integers in thousandths of their unit
//! (`73_200` stands for 73.2 %).

pub mod app;
pub mod config;
pub mod display;
pub mod drift;
pub mod history;
pub mod mock_data;
pub mod prometheus_client;
pub mod reconcile;
pub mod roster;
pub mod selection;
pub mod session;
pub mod text;
pub mod theme;
