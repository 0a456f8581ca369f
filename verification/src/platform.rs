//! The hosting platforms, and how one is chosen.

use crate::error::Error;
use crate::text::{contains, found_in, lowered, reads_as};
use vstd::prelude::*;
use vstd::string::*;

verus! {

/// A hosting platform whose file pages this crate can address.
#[derive(Clone, Copy, Debug, PartialEq, Eq, Structural)]
pub enum Platform {
    Github,
    Gitlab,
}

impl Platform {
    /// What stands between the repository's address and the ref in the
    /// address of a file's page.
    pub open spec fn blob_segment(self) -> Seq<char> {
        match self {
            Platform::Github => "/blob/"@,
            Platform::Gitlab => "/-/blob/"@,
        }
    }
}

/// The platform that `name` names: `github` or `gitlab`, in capitals or
/// small letters.
pub open spec fn named(name: Seq<char>) -> Option<Platform> {
    if lowered(name) == "github"@ {
        Some(Platform::Github)
    } else if lowered(name) == "gitlab"@ {
        Some(Platform::Gitlab)
    } else {
        None
    }
}

/// The platform that a repository's address points to: the first of
/// `github` and `gitlab` that stands anywhere in it, in small letters.
pub open spec fn hosted_on(url: Seq<char>) -> Option<Platform> {
    if found_in(url, "github"@) {
        Some(Platform::Github)
    } else if found_in(url, "gitlab"@) {
        Some(Platform::Gitlab)
    } else {
        None
    }
}

/// The case of a name's letters does not matter: two names that differ in
/// nothing but the case of ASCII letters name the same platform, or both
/// name none.
pub proof fn lemma_case_does_not_matter(a: Seq<char>, b: Seq<char>)
    requires
        lowered(a) == lowered(b),
    ensures
        named(a) == named(b),
{
}

/// Reads the name of a platform, whatever the case of its letters.
pub fn parse_platform(p: &str) -> (res: Result<Platform, Error>)
    ensures
        match res {
            Ok(platform) => named(p@) == Some(platform),
            Err(e) => {
                &&& named(p@) is None
                &&& e matches Error::InvalidPlatform { given }
                &&& given@ == p@
            },
        },
{
    if reads_as(p, "github") {
        Ok(Platform::Github)
    } else if reads_as(p, "gitlab") {
        Ok(Platform::Gitlab)
    } else {
        Err(Error::InvalidPlatform { given: p.to_owned() })
    }
}

/// Tells the platform from the repository's address.
pub fn detect(url: &str) -> (res: Option<Platform>)
    ensures
        res == hosted_on(url@),
{
    if contains(url, "github") {
        Some(Platform::Github)
    } else if contains(url, "gitlab") {
        Some(Platform::Gitlab)
    } else {
        None
    }
}

} // verus!
