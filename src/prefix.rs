use vstd::prelude::*;

use crate::model::TapError;

verus! {

/// What `std::path::Path::parent` returns for a path: the path without its
/// last component, or `None` for a root or an empty path.
pub uninterp spec fn parent_of(p: Seq<char>) -> Option<Seq<char>>;

/// Relies on `nix::unistd::getuid` and `Uid::is_root`: whether the process
/// runs as the superuser. Depends on the process, so nothing is promised.
#[verifier::external_body]
fn running_as_root() -> (r: bool) {
    nix::unistd::getuid().is_root()
}

/// Relies on `dirs::executable_dir`: the user's executable directory, when
/// the environment determines one. Depends on the environment, so nothing is
/// promised.
#[verifier::external_body]
fn executable_dir() -> (r: Option<String>) {
    dirs::executable_dir().map(|p| p.to_string_lossy().into_owned())
}

/// Relies on `std::path::Path::parent`: the parent of a path; the result
/// depends on the path alone.
#[verifier::external_body]
fn parent_path(p: &String) -> (r: Option<String>)
    ensures
        match r {
            Some(q) => parent_of(p@) == Some(q@),
            None => parent_of(p@) is None,
        },
{
    std::path::Path::new(p).parent().map(|q| q.to_string_lossy().into_owned())
}

/// The system-wide install prefix used by the superuser.
pub open spec fn system_prefix() -> Seq<char> {
    "/usr/local"@
}

/// The per-user install prefix derived from the user's executable directory:
/// its parent directory.
pub open spec fn user_prefix_of(exec_dir: Option<Seq<char>>) -> Result<Seq<char>, TapError> {
    match exec_dir {
        None => Err(TapError::NoExecutableDir),
        Some(d) => match parent_of(d) {
            None => Err(TapError::NoExecutableDirParent),
            Some(p) => Ok(p),
        },
    }
}

/// The install prefix chosen from an explicit prefix, the privilege level
/// and the per-user prefix (or why it could not be found).
pub open spec fn prefix_of(
    explicit: Option<Seq<char>>,
    is_root: bool,
    user: Result<Seq<char>, TapError>,
) -> Result<Seq<char>, TapError> {
    match explicit {
        Some(p) => Ok(p),
        None => if is_root {
            Ok(system_prefix())
        } else {
            user
        },
    }
}

/// The view of an optional string.
pub open spec fn opt_view(s: Option<String>) -> Option<Seq<char>> {
    match s {
        Some(v) => Some(v@),
        None => None,
    }
}

/// The view of a string result.
pub open spec fn result_view(r: Result<String, TapError>) -> Result<Seq<char>, TapError> {
    match r {
        Ok(v) => Ok(v@),
        Err(e) => Err(e),
    }
}

/// The parent of the user's executable directory.
pub fn user_prefix(exec_dir: Option<String>) -> (r: Result<String, TapError>)
    ensures
        result_view(r) == user_prefix_of(opt_view(exec_dir)),
{
    match exec_dir {
        None => Err(TapError::NoExecutableDir),
        Some(d) => match parent_path(&d) {
            None => Err(TapError::NoExecutableDirParent),
            Some(p) => Ok(p),
        },
    }
}

/// Chooses the install prefix: the explicit one when given; else the
/// system-wide default for the superuser; else the per-user prefix.
pub fn select_prefix(explicit: Option<String>, is_root: bool, user: Result<String, TapError>) -> (r:
    Result<String, TapError>)
    ensures
        result_view(r) == prefix_of(opt_view(explicit), is_root, result_view(user)),
{
    match explicit {
        Some(p) => Ok(p),
        None => if is_root {
            proof {
                reveal_strlit("/usr/local");
            }
            Ok(String::from_str("/usr/local"))
        } else {
            user
        },
    }
}

/// Resolves the install prefix in this process, looking up the privilege
/// level and the user's executable directory.
pub fn resolve_prefix(explicit: Option<String>) -> (r: Result<String, TapError>)
    ensures
        explicit matches Some(p) ==> r matches Ok(q) && q@ == p@,
        explicit is None ==> exists|is_root: bool, exec_dir: Option<Seq<char>>|
            result_view(r) == #[trigger] prefix_of(None, is_root, user_prefix_of(exec_dir)),
{
    let is_root = running_as_root();
    let exec_dir = executable_dir();
    let ghost dir = opt_view(exec_dir);
    let user = user_prefix(exec_dir);
    let r = select_prefix(explicit, is_root, user);
    proof {
        if explicit is None {
            assert(result_view(r) == prefix_of(None, is_root, user_prefix_of(dir)));
        }
    }
    r
}

/// Prefix resolution: an explicit prefix is used whatever the privilege
/// level; without one the superuser gets the system-wide default, and any
/// other user the parent of their executable directory.
pub proof fn lemma_prefix_resolution(
    explicit: Option<Seq<char>>,
    is_root: bool,
    exec_dir: Option<Seq<char>>,
)
    ensures
        explicit matches Some(p) ==> prefix_of(explicit, is_root, user_prefix_of(exec_dir)) == Ok::<
            _,
            TapError,
        >(p) && prefix_of(explicit, !is_root, user_prefix_of(exec_dir)) == Ok::<_, TapError>(p),
        explicit is None && is_root ==> prefix_of(explicit, is_root, user_prefix_of(exec_dir))
            == Ok::<_, TapError>("/usr/local"@),
        explicit is None && !is_root ==> prefix_of(explicit, is_root, user_prefix_of(exec_dir))
            == user_prefix_of(exec_dir),
        explicit is None && !is_root && exec_dir is Some && parent_of(exec_dir->0) is Some
            ==> prefix_of(explicit, is_root, user_prefix_of(exec_dir)) == Ok::<_, TapError>(
            parent_of(exec_dir->0)->0,
        ),
{
}

} // verus!
