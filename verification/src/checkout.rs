//! The rules on what the caller has read from the repository: whether it can
//! be used at all, and what HEAD gives as the ref of an address.

use crate::error::{renders, Error};
use crate::text::{strip_prefix, without_prefix};
use vstd::prelude::*;
use vstd::string::*;

verus! {

/// What HEAD points to: a branch or, where it is detached, a commit. The
/// address of a file is pinned to the one or to the other.
#[derive(Debug, PartialEq, Eq)]
pub enum Head {
    /// A branch, with the full name of its reference, such as
    /// `refs/heads/main`, where the name can be read.
    Branch { name: Option<String> },
    /// A commit, with its identifier in hexadecimal digits.
    Commit { id: String },
}

/// The name of a branch as it goes into an address: the reference's full
/// name without the namespace of branches in front.
pub open spec fn short_name(full: Seq<char>) -> Seq<char> {
    match without_prefix(full, "refs/heads/"@) {
        Some(name) => name,
        None => full,
    }
}

impl Head {
    /// The ref that an address is pinned to: the branch's short name, or
    /// the commit's identifier. A branch whose name cannot be read gives
    /// none.
    pub open spec fn pinned(self) -> Result<Seq<char>, Error> {
        match self {
            Head::Branch { name: Some(full) } => Ok(short_name(full@)),
            Head::Branch { name: None } => Err(Error::RefResolutionFailed),
            Head::Commit { id } => Ok(id@),
        }
    }

    /// The ref that an address is pinned to.
    pub fn reference(self) -> (res: Result<String, Error>)
        ensures
            renders(res, self.pinned()),
    {
        match self {
            Head::Branch { name: Some(full) } => match strip_prefix(full.as_str(), "refs/heads/") {
                Some(name) => Ok(name.to_owned()),
                None => Ok(full),
            },
            Head::Branch { name: None } => Err(Error::RefResolutionFailed),
            Head::Commit { id } => Ok(id),
        }
    }
}

/// A repository can be used when it has a working tree and at least one
/// commit. A bare repository is refused as such, whether or not it is empty.
pub fn check_repository(is_bare: bool, is_empty: bool) -> (res: Result<(), Error>)
    ensures
        is_bare ==> res == Err::<(), Error>(Error::BareRepository),
        !is_bare && is_empty ==> res == Err::<(), Error>(Error::EmptyRepository),
        !is_bare && !is_empty ==> res == Ok::<(), Error>(()),
{
    if is_bare {
        Err(Error::BareRepository)
    } else if is_empty {
        Err(Error::EmptyRepository)
    } else {
        Ok(())
    }
}

} // verus!
