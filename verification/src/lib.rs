//! A verified client library for fetching a user's favorited beatmapsets
//! from a music-game web API and downloading their archives from a mirror.
//!
//! The library holds the logic of the client: credential validation, the
//! OAuth token-request body and response handling, the favorites paginator
//! with its termination rule and duplicate-free identifier set, the URL and
//! file-name construction, and the per-download result report. The
//! surrounding program performs the HTTP requests and file writes and hands
//! this library plain values.

pub mod auth;
pub mod config;
pub mod digits;
pub mod download;
pub mod favorites;
