//! Verified core of a Gitea → Jenkins bridge: it turns Gitea webhook events
//! into Jenkins build requests, screens incoming webhooks, and makes the
//! decisions of the Gitea and Jenkins REST clients.

pub mod text;
pub mod models;
pub mod events;
pub mod processor;
pub mod http_status;
pub mod gitea_api;
pub mod jenkins_api;
pub mod webhook;
pub mod laws;
