//! A self-update engine for a desktop application: it plans the extraction of
//! an update package, resolves the payload root inside the extracted scratch
//! area, plans the merge of the payload into the target directory (with a
//! configurable disposition for the file that matches the running executable),
//! and emits an ordered progress protocol with exactly one terminal event per
//! run. All file-system and archive work is performed by a thin driver outside
//! this crate; every decision the driver acts on is made and verified here.

pub mod decimal;
pub mod engine;
pub mod errors;
pub mod extract;
pub mod language;
pub mod merge;
pub mod messages;
pub mod observer;
pub mod paths;
pub mod resolver;
