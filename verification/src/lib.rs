//! Bototui: the state, navigation, refresh and job-listing logic behind a
//! terminal front end for AWS Batch, with its rendering and network calls kept
//! at the edges.

pub mod action;
pub mod components;
pub mod mocks;
pub mod text;
pub mod timefmt;
