//! Verified core of a forensic triage pipeline: resumable stage planning,
//! the timeline vocabulary and the temporal correlation rules over it,
//! correlation findings, the conversion of memory, USB, WSL and carved
//! evidence into timeline events, and the parsing and presentation helpers
//! around them.

pub mod pipeline;
pub mod text;
pub mod digest;
pub mod timeline;
pub mod temporal_rule;
pub mod severity;
pub mod correlation;
pub mod progress_view;
pub mod vhdx;
pub mod wsl;
pub mod options;
pub mod rule;
pub mod bruteforce;
pub mod sources;
pub mod dump_source;
pub mod memory;
pub mod carve;
pub mod supertimeline;
pub mod downloader;
pub mod usb;
pub mod session;
