use vstd::prelude::*;

use crate::model::BuildMode;

verus! {

/// `rel` resolved against `base`, as Unix path joining does: an absolute
/// `rel` replaces `base`; otherwise a separator is inserted unless `base` is
/// empty or already ends with one.
pub open spec fn joined(base: Seq<char>, rel: Seq<char>) -> Seq<char> {
    if rel.len() > 0 && rel[0] == '/' {
        rel
    } else if base.len() > 0 && base.last() != '/' {
        base + seq!['/'] + rel
    } else {
        base + rel
    }
}

/// The hidden directory, under the project root, that holds a build of the given mode.
pub open spec fn build_dir_name(mode: BuildMode) -> Seq<char> {
    match mode {
        BuildMode::Debug => ".tap_build_debug"@,
        BuildMode::Release => ".tap_build_release"@,
    }
}

/// The build directory of a project root and a build mode.
pub open spec fn build_dir_path(root: Seq<char>, mode: BuildMode) -> Seq<char> {
    joined(root, build_dir_name(mode))
}

/// Joins `rel` onto `base`.
pub fn join_path(base: &String, rel: &String) -> (r: String)
    ensures
        r@ == joined(base@, rel@),
{
    let rel_len = rel.as_str().unicode_len();
    if rel_len > 0 && rel.as_str().get_char(0) == '/' {
        return rel.clone();
    }
    let base_len = base.as_str().unicode_len();
    let mut r = base.clone();
    if base_len > 0 && base.as_str().get_char(base_len - 1) != '/' {
        r.append("/");
        proof {
            reveal_strlit("/");
        }
    }
    r.append(rel.as_str());
    proof {
        if base@.len() > 0 && base@.last() != '/' {
            assert(r@ =~= base@ + seq!['/'] + rel@);
        } else {
            assert(r@ =~= base@ + rel@);
        }
    }
    r
}

/// The name of the build directory for a mode.
pub fn build_dir_name_of(mode: BuildMode) -> (r: &'static str)
    ensures
        r@ == build_dir_name(mode),
{
    match mode {
        BuildMode::Debug => ".tap_build_debug",
        BuildMode::Release => ".tap_build_release",
    }
}

/// The build directory under `root` for `mode`: a pure function of the two,
/// so every invocation with the same root and mode reuses one directory.
pub fn build_dir(root: &String, mode: BuildMode) -> (r: String)
    ensures
        r@ == build_dir_path(root@, mode),
{
    let name = String::from_str(build_dir_name_of(mode));
    join_path(root, &name)
}

/// The build directory is determined by the root and the mode alone, and
/// the two modes never share a directory.
pub proof fn lemma_build_dirs_differ(root: Seq<char>, other_root: Seq<char>, mode: BuildMode)
    requires
        other_root == root,
    ensures
        build_dir_path(root, mode) == build_dir_path(other_root, mode),
        build_dir_path(root, BuildMode::Debug) != build_dir_path(root, BuildMode::Release),
{
    reveal_strlit(".tap_build_debug");
    reveal_strlit(".tap_build_release");
    let d = build_dir_name(BuildMode::Debug);
    let r = build_dir_name(BuildMode::Release);
    assert(d.len() == 16);
    assert(r.len() == 18);
    assert(d[0] == '.');
    assert(r[0] == '.');
    assert(build_dir_path(root, BuildMode::Debug).len() + 2 == build_dir_path(
        root,
        BuildMode::Release,
    ).len());
}

} // verus!
