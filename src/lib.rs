//! Rich-text chat messages of a game protocol: styled text fragments with
//! colors, style flags and click/hover events, and their mapping to and from
//! a JSON value tree.
pub mod chat;
pub mod codec;
pub mod json;
