//! The calls into the git2 library, each behind a trusted declaration.

use vstd::prelude::*;

verus! {

#[verifier::external_type_specification]
#[verifier::external_body]
pub struct ExRepository(git2::Repository);

#[verifier::external_type_specification]
#[verifier::external_body]
pub struct ExReference<'a>(git2::Reference<'a>);

/// Relies on git2::Repository::open: opens an existing repository rooted at
/// the given path. Every failure (missing path, not a repository, unreadable
/// metadata) becomes None.
#[verifier::external_body]
pub(crate) fn open_repository(path: &String) -> (r: Option<git2::Repository>) {
    git2::Repository::open(path).ok()
}

/// Relies on git2::Repository::head: resolves the reference that HEAD points
/// at. An UnbornBranch or NotFound error means the branch is absent, the
/// normal state of a freshly initialized repository, and becomes Ok(None);
/// any other error is handed back with its detail.
#[verifier::external_body]
pub(crate) fn head_of<'a>(repo: &'a git2::Repository) -> (r: Result<
    Option<git2::Reference<'a>>,
    String,
>) {
    match repo.head() {
        Ok(head) => Ok(Some(head)),
        Err(ref e) if e.code() == git2::ErrorCode::UnbornBranch || e.code()
            == git2::ErrorCode::NotFound => Ok(None),
        Err(e) => Err(format!("{:?}", e)),
    }
}

/// Relies on git2::Reference::shorthand: the short human-readable name of
/// the reference; a name that is not valid UTF-8 becomes None.
#[verifier::external_body]
pub(crate) fn shorthand_of(reference: &git2::Reference<'_>) -> (r: Option<String>) {
    reference.shorthand().ok().map(|s| s.to_owned())
}

/// Relies on git2::Repository::statuses with default options and on
/// git2::StatusEntry::status: one word of status bits for each working-tree
/// entry. A failure of the enumeration is handed back with its detail.
#[verifier::external_body]
pub(crate) fn statuses_of(repo: &git2::Repository) -> (r: Result<Vec<u32>, String>) {
    match repo.statuses(None) {
        Ok(es) => Ok(es.iter().map(|e| e.status().bits()).collect()),
        Err(e) => Err(format!("{:?}", e)),
    }
}

} // verus!
