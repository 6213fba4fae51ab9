//! Finds embedded video elements in a parsed markup tree and classifies
//! the host that serves each one.

pub mod address;
pub mod provider;
pub mod text;
pub mod video;

pub use provider::{ProviderKind, VideoProvider};
pub use address::{AbsoluteUrl, UrlError};
pub use video::{NodeInfo, VideoNode};
