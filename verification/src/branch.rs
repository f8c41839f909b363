//! Resolution of the current branch and abbreviation of its name.

use vstd::prelude::*;
use vstd::string::*;

use crate::gitcall;

verus! {

/// Shortens a branch name for display: a name of at most 10 characters is
/// returned unchanged; a longer one is cut to its first 8 characters
/// followed by two dots, giving a 10-character label.
pub fn truncate_branch(name: &str) -> (r: String)
    ensures
        name@.len() <= 10 ==> r@ == name@,
        name@.len() > 10 ==> r@ == name@.subrange(0, 8) + ".."@,
        r@.len() <= 10,
{
    let n: usize = name.unicode_len();
    if n > 10 {
        let prefix = name.substring_char(0, 8);
        let r = String::from_str(prefix).concat("..");
        proof {
            reveal_strlit("..");
        }
        r
    } else {
        name.to_owned()
    }
}

/// Resolves the abbreviated name of the repository's current branch.
///
/// Ok(Some(label)) is the truncated branch name; Ok(None) means the branch
/// is absent (an unborn branch, a missing reference, or a name that is not
/// valid UTF-8), a normal state and not an error; Err(detail) is an
/// unexpected lookup failure, left to the caller to treat as fatal.
pub fn current_branch(repo: &git2::Repository) -> (r: Result<Option<String>, String>)
    ensures
        r matches Ok(Some(label)) ==> label@.len() <= 10,
{
    match gitcall::head_of(repo) {
        Err(detail) => Err(detail),
        Ok(None) => Ok(None),
        Ok(Some(head)) => match gitcall::shorthand_of(&head) {
            None => Ok(None),
            Some(name) => Ok(Some(truncate_branch(name.as_str()))),
        },
    }
}

} // verus!
