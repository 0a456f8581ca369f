use git_files::{check_repository, Error, Head};

#[test]
fn branch_goes_by_its_short_name() {
    let head = Head::Branch { name: Some(String::from("refs/heads/master")) };
    assert_eq!(head.reference(), Ok(String::from("master")));

    let head = Head::Branch { name: Some(String::from("refs/heads/feature/login")) };
    assert_eq!(head.reference(), Ok(String::from("feature/login")));
}

#[test]
fn only_the_leading_namespace_falls_away() {
    let head = Head::Branch { name: Some(String::from("refs/heads/refs/heads/x")) };
    assert_eq!(head.reference(), Ok(String::from("refs/heads/x")));

    let head = Head::Branch { name: Some(String::from("refs/heads/")) };
    assert_eq!(head.reference(), Ok(String::from("")));
}

#[test]
fn name_outside_the_namespace_stays() {
    let head = Head::Branch { name: Some(String::from("main")) };
    assert_eq!(head.reference(), Ok(String::from("main")));

    let head = Head::Branch { name: Some(String::from("refs/tags/v1")) };
    assert_eq!(head.reference(), Ok(String::from("refs/tags/v1")));
}

#[test]
fn branch_without_a_name_gives_no_ref() {
    let head = Head::Branch { name: None };
    assert_eq!(head.reference(), Err(Error::RefResolutionFailed));
}

#[test]
fn detached_head_goes_by_its_commit() {
    let id = "8c3a9d2f0b1e4c5d6a7b8c9d0e1f2a3b4c5d6e7f";
    let head = Head::Commit { id: String::from(id) };
    assert_eq!(head.reference(), Ok(String::from(id)));

    let head = Head::Commit { id: String::from("refs/heads/abc") };
    assert_eq!(head.reference(), Ok(String::from("refs/heads/abc")));
}

#[test]
fn bare_repository_is_refused() {
    assert_eq!(check_repository(true, false), Err(Error::BareRepository));
    assert_eq!(check_repository(true, true), Err(Error::BareRepository));
}

#[test]
fn empty_repository_is_refused() {
    assert_eq!(check_repository(false, true), Err(Error::EmptyRepository));
}

#[test]
fn repository_with_tree_and_commit_is_accepted() {
    assert_eq!(check_repository(false, false), Ok(()));
}

#[test]
fn failures_have_their_messages() {
    assert_eq!(Error::RepositoryNotFound.message(), "Cannot find a repository");
    assert_eq!(Error::BareRepository.message(), "Cannot use a bare repository");
    assert_eq!(Error::EmptyRepository.message(), "Cannot use an empty repository");
    assert_eq!(Error::RefResolutionFailed.message(), "Cannot get branch or commit");
    assert_eq!(Error::PathOutsideWorkingTree.message(), "File is outside of the working tree");
    assert_eq!(Error::MissingRemote.message(), "cannot get repository url");
    assert_eq!(Error::InvalidRemoteForm.message(), "Invalid remote form");
    assert_eq!(Error::CannotDetermineUrl.message(), "cannot get repository url");
    assert_eq!(Error::UnknownPlatform.message(), "unknown url, try passing --platform param");
    assert_eq!(
        Error::InvalidPlatform { given: String::from("sourcehut") }.message(),
        "Invalid platform sourcehut"
    );
    assert_eq!(Error::InvalidPlatform { given: String::new() }.message(), "Invalid platform ");
}
