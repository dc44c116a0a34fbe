//! Local service orchestrator: decides what to run and how.
//!
//! This library holds the decision logic of a desktop launcher that starts a
//! locally hosted backend, its auxiliary container services, and a browser
//! view pointed at it. All filesystem checks, process spawns, and network
//! requests are performed by the embedding application; the library computes
//! launch plans, drives candidate-fallback loops step by step, and classifies
//! observed outcomes, so that every decision is verified.

pub mod browser;
pub mod config;
pub mod health;
pub mod interpreter;
pub mod launch;
pub mod navigate;
pub mod paths;
pub mod process;
