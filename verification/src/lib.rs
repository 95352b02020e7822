//! Lifecycle management for the MinHook Detours hooking engine.
//!
//! The engine patches the code of a running process, which no verifier can
//! follow. This crate holds everything around it that can be reasoned about:
//! the status codes and what they mean, the thread-freeze setting, and the
//! guard that decides which request goes to the engine and what each answer
//! does to the guard. The requests themselves are made by the caller, who
//! hands the engine's answers back.

pub mod engine;
pub mod error;
pub mod guard;
