/// Adding, removing and listing aliases.
pub mod alias;
/// Setting up the client credentials and telling how they stand.
pub mod auth;
/// Pause, resume, track changes, volume, shuffle and repeat.
pub mod controls;
/// What to play for a query, and how it is played.
pub mod play;
/// Searches whose results are listed.
pub mod search;
