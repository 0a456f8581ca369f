//! Permalinks for files of a checked-out repository: from the address of the
//! repository's remote, the branch or commit that is checked out and a path
//! below the root of the working tree, to the address of the file's page on
//! GitHub or GitLab.

pub mod checkout;
pub mod decimal;
pub mod error;
pub mod link;
pub mod platform;
pub mod remote;
pub mod text;

pub use crate::checkout::{check_repository, Head};
pub use crate::error::Error;
pub use crate::link::{file_url, github, gitlab};
pub use crate::platform::{detect, parse_platform, Platform};
pub use crate::remote::{get_url, remote_url};
