//! From the address of a remote to the web address of the repository.

use crate::error::{renders, Error};
use crate::text::{
    contains, found_at, found_in, lemma_found_in_part, lemma_replaced_absent,
    lemma_replaced_concat, lemma_replaced_one, replace, replaced, strip_prefix, strip_suffix,
    without_prefix, without_suffix,
};
use vstd::prelude::*;
use vstd::string::*;

verus! {

/// `base` as a web address: it has to hold `http` somewhere.
pub open spec fn web_address(base: Seq<char>) -> Result<Seq<char>, Error> {
    if found_in(base, "http"@) {
        Ok(base)
    } else {
        Err(Error::InvalidRemoteForm)
    }
}

/// The web address of the repository that the remote address `raw` points
/// to.
///
/// In SSH form, `git@host:owner/repo.git`, the `git@` and the `.git` fall
/// away, every `:` becomes `/`, and `https://` comes in front. Any other
/// address has to end in `.git`, which falls away.
pub open spec fn normalized(raw: Seq<char>) -> Result<Seq<char>, Error> {
    match without_prefix(raw, "git@"@) {
        Some(rest) => match without_suffix(rest, ".git"@) {
            Some(name) => web_address("https://"@ + replaced(name, ':', "/"@)),
            None => Err(Error::InvalidRemoteForm),
        },
        None => match without_suffix(raw, ".git"@) {
            Some(base) => web_address(base),
            None => Err(Error::CannotDetermineUrl),
        },
    }
}

/// Every address in SSH form that ends in `.git` is accepted: for any `name`,
/// `git@` + `name` + `.git` gives `https://` and `name` with `/` for each `:`.
pub proof fn lemma_ssh_form_is_accepted(name: Seq<char>)
    ensures
        normalized("git@"@ + name + ".git"@) == Ok::<Seq<char>, Error>(
            "https://"@ + replaced(name, ':', "/"@),
        ),
{
    reveal_strlit("git@");
    reveal_strlit(".git");
    reveal_strlit("https://");
    reveal_strlit("http");
    let raw = "git@"@ + name + ".git"@;
    let rest = name + ".git"@;
    let base = "https://"@ + replaced(name, ':', "/"@);
    assert("git@"@.is_prefix_of(raw));
    assert(raw.skip("git@"@.len() as int) =~= rest);
    assert(".git"@.is_suffix_of(rest));
    assert(rest.take(rest.len() - ".git"@.len()) =~= name);
    assert(found_at(base, "http"@, 0));
}

/// The address `git@host:path.git`, with no `:` inside `host` or `path`,
/// gives `https://host/path`.
pub proof fn lemma_ssh_form(host: Seq<char>, path: Seq<char>)
    requires
        !host.contains(':'),
        !path.contains(':'),
    ensures
        normalized("git@"@ + host + ":"@ + path + ".git"@) == Ok::<Seq<char>, Error>(
            "https://"@ + host + "/"@ + path,
        ),
{
    reveal_strlit(":");
    let name = host + ":"@ + path;
    lemma_ssh_form_is_accepted(name);
    assert(replaced(name, ':', "/"@) == host + "/"@ + path) by {
        lemma_replaced_concat(host + ":"@, path, ':', "/"@);
        lemma_replaced_concat(host, ":"@, ':', "/"@);
        lemma_replaced_absent(host, ':', "/"@);
        lemma_replaced_absent(path, ':', "/"@);
        assert(":"@ =~= seq![':']);
        lemma_replaced_one(':', "/"@);
    }
    assert("git@"@ + host + ":"@ + path + ".git"@ =~= "git@"@ + name + ".git"@);
    assert("https://"@ + host + "/"@ + path =~= "https://"@ + (host + "/"@ + path));
}

/// The address `https://rest.git` gives `https://rest`.
pub proof fn lemma_web_form(rest: Seq<char>)
    ensures
        normalized("https://"@ + rest + ".git"@) == Ok::<Seq<char>, Error>("https://"@ + rest),
{
    reveal_strlit("git@");
    reveal_strlit(".git");
    reveal_strlit("https://");
    reveal_strlit("http");
    let base = "https://"@ + rest;
    let raw = base + ".git"@;
    assert(raw[0] == 'h');
    assert(!"git@"@.is_prefix_of(raw)) by {
        if "git@"@.is_prefix_of(raw) {
            assert(raw.subrange(0, 4)[0] == 'g');
        }
    }
    assert(".git"@.is_suffix_of(raw));
    assert(raw.take(raw.len() - ".git"@.len()) =~= base);
    assert(found_at(base, "http"@, 0));
}

/// The SSH form and the web form of one repository's address give the same
/// web address.
pub proof fn lemma_forms_agree(host: Seq<char>, path: Seq<char>)
    requires
        !host.contains(':'),
        !path.contains(':'),
    ensures
        normalized("git@"@ + host + ":"@ + path + ".git"@) == normalized(
            "https://"@ + host + "/"@ + path + ".git"@,
        ),
{
    lemma_ssh_form(host, path);
    lemma_web_form(host + "/"@ + path);
    assert("https://"@ + host + "/"@ + path =~= "https://"@ + (host + "/"@ + path));
    assert("https://"@ + host + "/"@ + path + ".git"@ =~= "https://"@ + (host + "/"@ + path)
        + ".git"@);
}

/// An address that does not end in `.git` is refused.
pub proof fn lemma_git_suffix_is_needed(raw: Seq<char>)
    requires
        !".git"@.is_suffix_of(raw),
    ensures
        normalized(raw) is Err,
{
    let rest = raw.skip("git@"@.len() as int);
    if "git@"@.is_prefix_of(raw) && ".git"@.is_suffix_of(rest) {
        assert(raw.subrange(raw.len() - ".git"@.len(), raw.len() as int) =~= rest.subrange(
            rest.len() - ".git"@.len(),
            rest.len() as int,
        ));
    }
}

/// An address that neither begins with `git@` nor holds `http` is refused.
pub proof fn lemma_scheme_is_needed(raw: Seq<char>)
    requires
        !"git@"@.is_prefix_of(raw),
        !found_in(raw, "http"@),
    ensures
        normalized(raw) is Err,
{
    if let Some(base) = without_suffix(raw, ".git"@) {
        if found_in(base, "http"@) {
            assert(Seq::<char>::empty() + base + ".git"@ =~= raw);
            lemma_found_in_part(Seq::empty(), base, ".git"@, "http"@);
        }
    }
}

/// The web address of the repository, from the address of its remote.
pub fn get_url(url: Option<&str>) -> (res: Result<String, Error>)
    ensures
        match url {
            Some(raw) => renders(res, normalized(raw@)),
            None => res == Err::<String, Error>(Error::MissingRemote),
        },
{
    let raw = match url {
        Some(raw) => raw,
        None => {
            return Err(Error::MissingRemote);
        },
    };
    let parsed_url = match strip_prefix(raw, "git@") {
        Some(rest) => match strip_suffix(rest, ".git") {
            Some(name) => {
                let mut address = "https://".to_owned();
                address.append(replace(name, ':', "/").as_str());
                address
            },
            None => {
                return Err(Error::InvalidRemoteForm);
            },
        },
        None => match strip_suffix(raw, ".git") {
            Some(base) => base.to_owned(),
            None => {
                return Err(Error::CannotDetermineUrl);
            },
        },
    };
    if contains(parsed_url.as_str(), "http") {
        Ok(parsed_url)
    } else {
        Err(Error::InvalidRemoteForm)
    }
}

/// The web address to build on: the one that the caller gives, taken as it
/// is, or else the one that the remote's address leads to.
pub fn remote_url(given: Option<String>, remote: Option<&str>) -> (res: Result<String, Error>)
    ensures
        match (given, remote) {
            (Some(url), _) => res == Ok::<String, Error>(url),
            (None, Some(raw)) => renders(res, normalized(raw@)),
            (None, None) => res == Err::<String, Error>(Error::MissingRemote),
        },
{
    match given {
        Some(url) => Ok(url),
        None => get_url(remote),
    }
}

} // verus!
