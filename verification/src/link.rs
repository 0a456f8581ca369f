//! The address of a file's page on a hosting platform.

use crate::decimal::{append_decimal, decimal};
use crate::error::{renders, Error};
use crate::platform::{detect, hosted_on, Platform};
use vstd::prelude::*;
use vstd::string::*;

verus! {

/// What is appended to an address to point at a line: `#L` and the line's
/// number, or nothing where no line is given.
pub open spec fn line_anchor(line: Option<u16>) -> Seq<char> {
    match line {
        Some(n) => "#L"@ + decimal(n as nat),
        None => Seq::empty(),
    }
}

/// The address of the page that shows `path` as of `reference`, in the
/// repository at `base` on `platform`.
pub open spec fn blob_url(
    platform: Platform,
    base: Seq<char>,
    reference: Seq<char>,
    path: Seq<char>,
    line: Option<u16>,
) -> Seq<char> {
    base + platform.blob_segment() + reference + "/"@ + path + line_anchor(line)
}

/// The address that is given out for a file: that of its page on the
/// platform asked for or, where none is asked for, on the platform that the
/// repository's address points to.
pub open spec fn located(
    url: Seq<char>,
    reference: Seq<char>,
    path: Seq<char>,
    line: Option<u16>,
    platform: Option<Platform>,
) -> Result<Seq<char>, Error> {
    let chosen = match platform {
        Some(p) => Some(p),
        None => hosted_on(url),
    };
    match chosen {
        Some(p) => Ok(blob_url(p, url, reference, path, line)),
        None => Err(Error::UnknownPlatform),
    }
}

/// An address with a line is the address without it, then `#L`, then the
/// line's number.
pub proof fn lemma_line_is_appended(
    platform: Platform,
    base: Seq<char>,
    reference: Seq<char>,
    path: Seq<char>,
    n: u16,
)
    ensures
        blob_url(platform, base, reference, path, Some(n)) == blob_url(
            platform,
            base,
            reference,
            path,
            None,
        ) + "#L"@ + decimal(n as nat),
{
    let front = base + platform.blob_segment() + reference + "/"@ + path;
    assert(front + Seq::<char>::empty() =~= front);
    assert(front + ("#L"@ + decimal(n as nat)) =~= front + "#L"@ + decimal(n as nat));
}

/// An address on GitLab is the address on GitHub with `/-` put in behind the
/// repository's address.
pub proof fn lemma_gitlab_puts_in_a_dash(
    base: Seq<char>,
    reference: Seq<char>,
    path: Seq<char>,
    line: Option<u16>,
)
    ensures
        blob_url(Platform::Gitlab, base, reference, path, line) == base + "/-"@ + blob_url(
            Platform::Github,
            Seq::empty(),
            reference,
            path,
            line,
        ),
{
    reveal_strlit("/-");
    reveal_strlit("/blob/");
    reveal_strlit("/-/blob/");
    assert("/-/blob/"@ =~= "/-"@ + "/blob/"@);
    let rest = reference + "/"@ + path + line_anchor(line);
    assert(base + "/-/blob/"@ + reference + "/"@ + path + line_anchor(line) =~= base + "/-/blob/"@
        + rest);
    assert(Seq::<char>::empty() + "/blob/"@ + reference + "/"@ + path + line_anchor(line)
        =~= "/blob/"@ + rest);
    assert(base + "/-/blob/"@ + rest =~= base + "/-"@ + ("/blob/"@ + rest));
}

fn blob(
    platform: Platform,
    repo_url: &str,
    branch_or_commit: &str,
    path: &str,
    line: Option<u16>,
) -> (url: String)
    ensures
        url@ == blob_url(platform, repo_url@, branch_or_commit@, path@, line),
{
    let mut url = String::new();
    url.append(repo_url);
    match platform {
        Platform::Github => url.append("/blob/"),
        Platform::Gitlab => url.append("/-/blob/"),
    }
    url.append(branch_or_commit);
    url.append("/");
    url.append(path);
    if let Some(line) = line {
        url.append("#L");
        append_decimal(&mut url, line);
    }
    url
}

/// The address of a file's page on GitHub.
pub fn github(
    repo_url: &str,
    branch_or_commit: &str,
    path: &str,
    line: Option<u16>,
) -> (res: Result<String, Error>)
    ensures
        res matches Ok(url) && url@ == repo_url@ + "/blob/"@ + branch_or_commit@ + "/"@ + path@
            + line_anchor(line),
{
    Ok(blob(Platform::Github, repo_url, branch_or_commit, path, line))
}

/// The address of a file's page on GitLab.
pub fn gitlab(
    repo_url: &str,
    branch_or_commit: &str,
    path: &str,
    line: Option<u16>,
) -> (res: Result<String, Error>)
    ensures
        res matches Ok(url) && url@ == repo_url@ + "/-/blob/"@ + branch_or_commit@ + "/"@ + path@
            + line_anchor(line),
{
    Ok(blob(Platform::Gitlab, repo_url, branch_or_commit, path, line))
}

/// The address of a file's page on the platform asked for or, where none is
/// asked for, on the one that the repository's address points to.
pub fn file_url(
    url: &str,
    branch_or_commit: &str,
    path: &str,
    line: Option<u16>,
    platform: Option<Platform>,
) -> (res: Result<String, Error>)
    ensures
        renders(res, located(url@, branch_or_commit@, path@, line, platform)),
{
    let chosen = match platform {
        Some(p) => Some(p),
        None => detect(url),
    };
    match chosen {
        Some(Platform::Github) => github(url, branch_or_commit, path, line),
        Some(Platform::Gitlab) => gitlab(url, branch_or_commit, path, line),
        None => Err(Error::UnknownPlatform),
    }
}

} // verus!
