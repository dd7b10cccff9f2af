//! Core logic of a modpack package manager: the pack manifest model, the
//! side/environment rules, resolution-result handling, and the canonical
//! archive index with its JSON encoding.

pub mod json;
pub mod manifest;
pub mod modrinth;
pub mod mrpack;
pub mod pipeline;
pub mod text;
