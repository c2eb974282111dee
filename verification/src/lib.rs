//! Verified core of a container-image command-line extension: source
//! resolution, progress rendering, result resolution and the projection of
//! daemon records into named views.

pub mod cli;
pub mod clock;
pub mod error;
pub mod file;
pub mod history;
pub mod image;
pub mod images;
pub mod import;
pub mod inspect;
pub mod net;
pub mod progress;
pub mod record;
pub mod source;
pub mod text;
