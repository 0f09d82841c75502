//! Semantic analysis core for a dynamically-typed scripting language:
//! a type model, a recursion-safe inference guard, deterministic
//! overload resolution, and a per-declaration property index.

pub mod attribute;
pub mod call;
pub mod client;
pub mod completion;
pub mod config;
pub mod context;
pub mod diagnostics;
pub mod equality_comparison_provider;
pub mod equality_provider;
pub mod features;
pub mod guard;
pub mod index;
pub mod number;
pub mod property;
pub mod readonly;
pub mod resolve;
pub mod server;
pub mod signature;
pub mod status;
pub mod syntax;
pub mod types;
pub mod vworkspace;
pub mod workspace;
