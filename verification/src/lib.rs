/// Command lines: which kind and which query the words and flags ask for.
pub mod cli;
/// What each command does with its arguments, the settings and the answers it gets.
pub mod commands;
/// The settings: client credentials and aliases.
pub mod config;
/// The texts that are shown.
pub mod display;
/// The catalog, its token endpoint and the player.
pub mod spotify;
/// Texts: writing and reading numbers, joining and cutting, case and whitespace.
pub mod text;
