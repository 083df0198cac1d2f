/// Searches of the catalog and what they find.
pub mod api;
/// The player's scripting bridge: the scripts to run and what their answers mean.
pub mod applescript;
/// The bearer token: when the cached one is used and how a new one is had.
pub mod auth;
/// HTTP statuses.
pub mod status;
