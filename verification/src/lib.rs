//! Call Nix and make sense of what it answers.

pub mod nix;
