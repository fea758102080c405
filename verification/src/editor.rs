//! The editor's own terrain tools: an earlier, simpler brush revision.

pub mod terrain_brushes;
