//! Request-handling logic of the VieLang HTTP API: paging, parsing of
//! request fields, access rules, bulk imports and billing decisions.

pub mod paging;
pub mod common;
pub mod text;
pub mod random;
pub mod error;
pub mod bulk_import;
pub mod security;
pub mod ids;
pub mod auth;
pub mod alarms;
pub mod ai_model;
pub mod domain;
pub mod audit;
pub mod edge_events;
pub mod geofence;
pub mod calculated_fields;
pub mod housekeeper;
pub mod billing;
pub mod devices;
pub mod device_profiles;
pub mod api_keys;
pub mod cluster;
pub mod health;
pub mod dashboards;
pub mod edges;
pub mod entity_views;
pub mod connectivity;
pub mod events;
pub mod entity_versions;
pub mod export;
pub mod assets;
pub mod asset_profiles;
pub mod customers;
pub mod admin;
pub mod backup;
pub mod component_descriptor;
pub mod admin_analytics;
