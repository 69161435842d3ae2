//! A client that keeps a desktop wallpaper aligned with the choice of a
//! remote pool service.
//!
//! The crate is organised around one update cycle: poll the service for the
//! current content digest, fetch the wallpaper only when the digest changed,
//! cache downloaded images on disk keyed by digest, apply the image through
//! an external command, and sleep until the next interval boundary.  All
//! decisions of that cycle live here as verified functions over plain
//! values; an unverified driver performs the HTTP requests, the file system
//! access and the subprocess calls, and feeds the outcomes back in.

mod cache;
mod config;
mod cycle;
mod error;
mod remote;
mod schedule;
mod setter;

pub use cache::file_stem;
pub use cache::find_wallpaper_path;
pub use cache::str_eq;
pub use cache::wallpaper_file_name;
pub use config::Config;
pub use cycle::on_apply_result;
pub use cycle::on_cache_listing;
pub use cycle::on_digest_response;
pub use cycle::on_interval_response;
pub use cycle::on_store_result;
pub use cycle::on_wallpaper_response;
pub use cycle::CycleState;
pub use cycle::DigestDecision;
pub use cycle::DownloadEvent;
pub use cycle::HttpText;
pub use cycle::Phase;
pub use error::Error;
pub use remote::digest_url;
pub use remote::extension_from_content_type;
pub use remote::interval_url;
pub use remote::status_is_success;
pub use remote::wallpaper_url;
pub use schedule::delay_from;
pub use schedule::delay_until_next_update;
pub use schedule::parse_interval;
pub use schedule::parse_u64;
pub use setter::classify_desktop;
pub use setter::ApplyRun;
pub use setter::CommandOutcome;
pub use setter::CommandSpec;
pub use setter::Desktop;
