//! Locate a known TrueType font in the per-user font directory, or provision
//! it there by downloading and unpacking its archive.
//!
//! The library holds the decisions of that work and proves them: where each
//! file lives, which step comes next given what the previous one reported,
//! which archive entries may be written, and what each failure says. The
//! caller performs the requests it hands out (environment lookup, filesystem
//! probes, the download, the extraction) and reports back.

pub mod layout;

pub use layout::{
    base_dir, font_path, join_path, partial_zip_path, zip_path, DOWNLOAD_URL, FONT_NAME,
    INFO_URL, PARTIAL_ZIP_NAME, RELATIVE_TO_HOME, ZIP_NAME,
};

pub mod error;
pub mod status;

pub use error::{ErrorKind, ProvisionError};
pub mod machine;

pub use machine::{Answer, Phase, Provision, Request};
pub mod entry;

pub use entry::{is_safe_entry_name, plan_entry, EntryKind, EntryPlan};
pub mod laws;
