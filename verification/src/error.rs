//! The ways in which a permalink cannot be had.

use vstd::prelude::*;
use vstd::string::*;

verus! {

/// Why no permalink was produced. Every failure ends the run; none is
/// retried.
#[derive(Debug, PartialEq, Eq)]
pub enum Error {
    /// No repository at the starting directory, nor above it. The caller,
    /// who looks for the repository, reports this.
    RepositoryNotFound,
    /// The repository has no working tree.
    BareRepository,
    /// The repository has no commit yet.
    EmptyRepository,
    /// HEAD gave neither a branch name nor a commit.
    RefResolutionFailed,
    /// The file does not lie under the root of the working tree. The
    /// caller, who resolves the file's path, reports this.
    PathOutsideWorkingTree,
    /// The repository has no remote URL.
    MissingRemote,
    /// The remote URL is not of a form that can be turned into a web address.
    InvalidRemoteForm,
    /// The remote URL is neither in SSH form nor ends in `.git`.
    CannotDetermineUrl,
    /// The platform asked for is not one this crate knows.
    InvalidPlatform { given: String },
    /// No platform was asked for, and the URL names none.
    UnknownPlatform,
}

impl Error {
    /// The message shown to the user for this failure.
    pub open spec fn text(self) -> Seq<char> {
        match self {
            Error::RepositoryNotFound => "Cannot find a repository"@,
            Error::BareRepository => "Cannot use a bare repository"@,
            Error::EmptyRepository => "Cannot use an empty repository"@,
            Error::RefResolutionFailed => "Cannot get branch or commit"@,
            Error::PathOutsideWorkingTree => "File is outside of the working tree"@,
            Error::MissingRemote => "cannot get repository url"@,
            Error::InvalidRemoteForm => "Invalid remote form"@,
            Error::CannotDetermineUrl => "cannot get repository url"@,
            Error::InvalidPlatform { given } => "Invalid platform "@ + given@,
            Error::UnknownPlatform => "unknown url, try passing --platform param"@,
        }
    }

    /// The message shown to the user for this failure.
    pub fn message(&self) -> (out: String)
        ensures
            out@ == self.text(),
    {
        match self {
            Error::RepositoryNotFound => "Cannot find a repository".to_owned(),
            Error::BareRepository => "Cannot use a bare repository".to_owned(),
            Error::EmptyRepository => "Cannot use an empty repository".to_owned(),
            Error::RefResolutionFailed => "Cannot get branch or commit".to_owned(),
            Error::PathOutsideWorkingTree => "File is outside of the working tree".to_owned(),
            Error::MissingRemote => "cannot get repository url".to_owned(),
            Error::InvalidRemoteForm => "Invalid remote form".to_owned(),
            Error::CannotDetermineUrl => "cannot get repository url".to_owned(),
            Error::InvalidPlatform { given } => {
                let mut out = "Invalid platform ".to_owned();
                out.append(given.as_str());
                out
            },
            Error::UnknownPlatform => "unknown url, try passing --platform param".to_owned(),
        }
    }
}

/// `res` is the outcome that `model` describes: the same failure, or a
/// string of the same characters.
pub open spec fn renders(res: Result<String, Error>, model: Result<Seq<char>, Error>) -> bool {
    match res {
        Ok(s) => model == Ok::<Seq<char>, Error>(s@),
        Err(e) => model == Err::<Seq<char>, Error>(e),
    }
}

} // verus!
