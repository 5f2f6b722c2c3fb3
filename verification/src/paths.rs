use vstd::prelude::*;
use path_slash::PathExt;

verus! {

/// Why a configured path cannot be used.
#[derive(Clone, Debug, PartialEq, Eq)]
pub enum PathError {
    /// The working directory is not absolute; holds its text.
    RelativeWorkingDir(String),
    /// The path does not exist; holds its text.
    Missing(String),
    /// `path_slash` could not write the path with '/' separators; holds the path.
    NotSlashable(String),
}

/// Text with no separator or drive mark: no '/', '\' or ':'.
pub open spec fn is_plain_name(s: Seq<char>) -> bool {
    forall|i: int| 0 <= i < s.len() ==> #[trigger] s[i] != '/' && s[i] != '\\' && s[i] != ':'
}

/// The text after an optional leading '/'.
pub open spec fn after_root(s: Seq<char>) -> Seq<char> {
    if s.len() > 0 && s[0] == '/' {
        s.drop_first()
    } else {
        s
    }
}

/// A path already written in '/'-form: no '\' or ':', and one or more
/// non-empty parts other than "." joined by single '/', with at most one '/'
/// in front and none at the end.
pub open spec fn is_normal_path(s: Seq<char>) -> bool {
    let body = after_root(s);
    &&& body.len() > 0
    &&& forall|i: int| 0 <= i < s.len() ==> #[trigger] s[i] != '\\' && s[i] != ':'
    &&& body[0] != '/'
    &&& body.last() != '/'
    &&& forall|i: int| 0 <= i < body.len() - 1 ==> !(#[trigger] body[i] == '/' && body[i + 1] == '/')
    &&& forall|i: int| 0 <= i < body.len() && #[trigger] body[i] == '.'
            ==> !((i == 0 || body[i - 1] == '/') && (i == body.len() - 1 || body[i + 1] == '/'))
}

/// What stands in messages for a path that is not Unicode text.
pub open spec fn non_unicode_text() -> Seq<char> {
    "<not UTF-8 path>"@
}

/// The path `path` written with '/' as its separator, by
/// `path_slash::PathExt::to_slash` on `std::path::Path::new(path)`. The crate's
/// source returns the text unchanged on Unix-like systems and rebuilds it from
/// the path's components on Windows; since that differs by platform, the result
/// is not named here. Both versions give `Some` for valid Unicode text, which a
/// `&str` is; both give a single plain name, and a path already in '/'-form
/// (see `is_normal_path`), back unchanged; and both give a non-empty form for a
/// non-empty path.
#[verifier::external_body]
fn slash_form(path: &str) -> (r: Option<String>)
    ensures
        r is Some,
        is_plain_name(path@) ==> r.unwrap()@ == path@,
        is_normal_path(path@) ==> r.unwrap()@ == path@,
        path@.len() > 0 ==> r.unwrap()@.len() > 0,
{
    std::path::Path::new(path).to_slash().map(|s| s.into_owned())
}

/// What a path turns into given its '/'-separated form: that form, or the
/// error that names the path when there is none.
pub fn from_slash_form(path: &str, slashed: Option<String>) -> (r: Result<String, PathError>)
    ensures
        match (r, slashed) {
            (Ok(text), Some(form)) => text@ == form@,
            (Err(PathError::NotSlashable(named)), None) => named@ == path@,
            _ => false,
        },
{
    match slashed {
        Some(form) => Ok(form),
        None => Err(PathError::NotSlashable(path.to_owned())),
    }
}

/// The path with '/' separators (see `slash_form`), which a Unicode path
/// always has; a single plain name is its own form.
pub fn fix_path_slash(path: &str) -> (r: Result<String, PathError>)
    ensures
        r is Ok,
        is_plain_name(path@) ==> r->Ok_0@ == path@,
        is_normal_path(path@) ==> r->Ok_0@ == path@,
        path@.len() > 0 ==> r->Ok_0@.len() > 0,
{
    from_slash_form(path, slash_form(path))
}

/// The checks on a configured path, given what the system says of it: the
/// working directory must be absolute, the joined path `joined` must exist,
/// and the result is the path's '/'-separated form `slashed`.
pub fn resolve_path(
    working_dir: &str,
    working_dir_is_relative: bool,
    joined: &str,
    joined_exists: bool,
    slashed: Option<String>,
) -> (r: Result<String, PathError>)
    ensures
        working_dir_is_relative ==> (r matches Err(PathError::RelativeWorkingDir(w)) && w@ == working_dir@),
        !working_dir_is_relative && !joined_exists ==> (r matches Err(PathError::Missing(p)) && p@ == joined@),
        !working_dir_is_relative && joined_exists ==> match (r, slashed) {
            (Ok(text), Some(form)) => text@ == form@,
            (Err(PathError::NotSlashable(named)), None) => named@ == joined@,
            _ => false,
        },
{
    if working_dir_is_relative {
        return Err(PathError::RelativeWorkingDir(working_dir.to_owned()));
    }
    if !joined_exists {
        return Err(PathError::Missing(joined.to_owned()));
    }
    from_slash_form(joined, slashed)
}

/// A configured path checked and written with '/' separators. The texts are
/// `None` where the path is not Unicode; messages then show
/// "<not UTF-8 path>", and such a joined path has no '/'-separated form.
pub fn handle_path(
    working_dir: Option<&str>,
    working_dir_is_relative: bool,
    joined: Option<&str>,
    joined_exists: bool,
) -> (r: Result<String, PathError>)
    ensures
        working_dir_is_relative ==> (r matches Err(PathError::RelativeWorkingDir(w)) && w@ == match working_dir {
            Some(t) => t@,
            None => non_unicode_text(),
        }),
        !working_dir_is_relative && !joined_exists ==> (r matches Err(PathError::Missing(p)) && p@ == match joined {
            Some(t) => t@,
            None => non_unicode_text(),
        }),
        !working_dir_is_relative && joined_exists && joined is None
            ==> (r matches Err(PathError::NotSlashable(p)) && p@ == non_unicode_text()),
        !working_dir_is_relative && joined_exists && joined is Some ==> r is Ok,
        !working_dir_is_relative && joined_exists && joined is Some && is_plain_name(joined->0@)
            ==> (r is Ok && r->Ok_0@ == joined->0@),
        !working_dir_is_relative && joined_exists && joined is Some && is_normal_path(joined->0@)
            ==> (r is Ok && r->Ok_0@ == joined->0@),
        !working_dir_is_relative && joined_exists && joined is Some && joined->0@.len() > 0
            ==> (r is Ok && r->Ok_0@.len() > 0),
{
    let working_text = match working_dir {
        Some(t) => t,
        None => "<not UTF-8 path>",
    };
    let joined_text = match joined {
        Some(t) => t,
        None => "<not UTF-8 path>",
    };
    let slashed = match joined {
        Some(t) => slash_form(t),
        None => None,
    };
    resolve_path(working_text, working_dir_is_relative, joined_text, joined_exists, slashed)
}

} // verus!
