//! Central orchestrator for MTPDB deployments: the verified core.
//!
//! The master knows a set of managers, one per remote server (`registry`,
//! `manager`). It starts them over SSH and takes their calls when they come up
//! (`servers`, `ssh`), and it passes requests for database instances on to them
//! (`orders`, `listing`, `lookup`).
//!
//! What needs a network is a conversation: a value that says what is to be done
//! next and takes what came of it (`http`, `ssh`). `laws` states what holds
//! across the functions, and the modules of the conversations state what holds
//! of whole conversations.
pub mod config;
pub mod http;
pub mod json;
pub mod laws;
pub mod listing;
pub mod lookup;
pub mod manager;
pub mod orders;
pub mod outside;
pub mod registry;
pub mod reply;
pub mod servers;
pub mod ssh;
pub mod text;
