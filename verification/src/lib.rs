//! Report relay: reads cell values pulled from a spreadsheet, decides where a
//! report goes, composes the message texts, and plans idempotent card-comment
//! upserts for a project board. All decision and formatting logic is verified;
//! the network edges live outside this crate.

pub mod cells;
pub mod dispatch;
pub mod flags;
pub mod text;
pub mod upsert;
pub mod urls;
