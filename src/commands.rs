use vstd::prelude::*;

use crate::model::{strings_view, BuildMode, Invocation, InvocationView};
use crate::paths::{join_path, joined};
use crate::text::{decimal, decimal_string};

verus! {

/// An invocation of `program` with `args`.
pub open spec fn invocation(program: Seq<char>, args: Seq<Seq<char>>) -> InvocationView {
    InvocationView { program, args }
}

/// `make`, in parallel, optimised in release mode.
pub open spec fn make_build_inv(mode: BuildMode, n_jobs: nat) -> InvocationView {
    match mode {
        BuildMode::Debug => invocation("make"@, seq!["-j"@, decimal(n_jobs)]),
        BuildMode::Release => invocation("make"@, seq!["CFLAGS=-O3"@, "-j"@, decimal(n_jobs)]),
    }
}

/// The build type flag of Meson's setup for a mode.
pub open spec fn buildtype_flag(mode: BuildMode) -> Seq<char> {
    match mode {
        BuildMode::Debug => "--buildtype=debug"@,
        BuildMode::Release => "--buildtype=release"@,
    }
}

/// `meson setup`, creating the build directory.
pub open spec fn meson_setup_inv(mode: BuildMode, dir: Seq<char>) -> InvocationView {
    invocation("meson"@, seq!["setup"@, buildtype_flag(mode), dir])
}

/// `meson compile` in the build directory.
pub open spec fn meson_compile_inv(dir: Seq<char>, n_jobs: nat) -> InvocationView {
    invocation("meson"@, seq!["compile"@, "-C"@, dir, "-j"@, decimal(n_jobs)])
}

/// `make clean`.
pub open spec fn make_clean_inv() -> InvocationView {
    invocation("make"@, seq!["clean"@])
}

/// `meson compile --clean` in the build directory.
pub open spec fn meson_clean_inv(dir: Seq<char>) -> InvocationView {
    invocation("meson"@, seq!["compile"@, "-C"@, dir, "--clean"@])
}

/// `make install` into a prefix.
pub open spec fn make_install_inv(prefix: Seq<char>) -> InvocationView {
    invocation("make"@, seq!["install"@, "PREFIX="@ + prefix])
}

/// `meson configure`, setting the install prefix of the build directory.
pub open spec fn meson_configure_inv(prefix: Seq<char>, dir: Seq<char>) -> InvocationView {
    invocation("meson"@, seq!["configure"@, "-D"@, "prefix="@ + prefix, dir])
}

/// `meson install` from the build directory.
pub open spec fn meson_install_inv(dir: Seq<char>) -> InvocationView {
    invocation("meson"@, seq!["install"@, "-C"@, dir])
}

/// A user executable: as given, or resolved against the build directory.
pub open spec fn execute_inv(
    in_build_dir: bool,
    dir: Seq<char>,
    executable: Seq<char>,
    args: Seq<Seq<char>>,
) -> InvocationView {
    if in_build_dir {
        invocation(joined(dir, executable), args)
    } else {
        invocation(executable, args)
    }
}

fn words1(a: &str) -> (r: Vec<String>)
    ensures
        strings_view(r@) == seq![a@],
        r@.len() == 1,
        r@[0]@ == a@,
{
    let mut r: Vec<String> = Vec::new();
    r.push(String::from_str(a));
    assert(strings_view(r@) =~= seq![a@]);
    r
}

fn words3(a: String, b: String, c: String) -> (r: Vec<String>)
    ensures
        strings_view(r@) == seq![a@, b@, c@],
        r@ == seq![a, b, c],
{
    let mut r: Vec<String> = Vec::new();
    r.push(a);
    r.push(b);
    r.push(c);
    assert(r@ =~= seq![a, b, c]);
    assert(strings_view(r@) =~= seq![a@, b@, c@]);
    r
}

/// The concatenation of a literal and a string.
fn prefixed(head: &str, tail: &String) -> (r: String)
    ensures
        r@ == head@ + tail@,
{
    let mut r = String::from_str(head);
    r.append(tail.as_str());
    r
}

/// The `make` invocation that builds in `mode` with `n_jobs` jobs.
pub fn make_build(mode: BuildMode, n_jobs: usize) -> (r: Invocation)
    ensures
        r@ == make_build_inv(mode, n_jobs as nat),
{
    let n = decimal_string(n_jobs);
    let mut args: Vec<String> = Vec::new();
    if mode == BuildMode::Release {
        args.push(String::from_str("CFLAGS=-O3"));
    }
    args.push(String::from_str("-j"));
    args.push(n);
    let r = Invocation { program: String::from_str("make"), args };
    assert(r@.args =~= make_build_inv(mode, n_jobs as nat).args);
    r
}

/// The `meson setup` invocation that creates `dir` for `mode`.
pub fn meson_setup(mode: BuildMode, dir: &String) -> (r: Invocation)
    ensures
        r@ == meson_setup_inv(mode, dir@),
{
    let flag = match mode {
        BuildMode::Debug => String::from_str("--buildtype=debug"),
        BuildMode::Release => String::from_str("--buildtype=release"),
    };
    let args = words3(String::from_str("setup"), flag, dir.clone());
    Invocation { program: String::from_str("meson"), args }
}

/// The `meson compile` invocation in `dir` with `n_jobs` jobs.
pub fn meson_compile(dir: &String, n_jobs: usize) -> (r: Invocation)
    ensures
        r@ == meson_compile_inv(dir@, n_jobs as nat),
{
    let mut args = words3(String::from_str("compile"), String::from_str("-C"), dir.clone());
    args.push(String::from_str("-j"));
    args.push(decimal_string(n_jobs));
    let r = Invocation { program: String::from_str("meson"), args };
    assert(r@.args =~= meson_compile_inv(dir@, n_jobs as nat).args);
    r
}

/// The `make clean` invocation.
pub fn make_clean() -> (r: Invocation)
    ensures
        r@ == make_clean_inv(),
{
    Invocation { program: String::from_str("make"), args: words1("clean") }
}

/// The `meson compile --clean` invocation in `dir`.
pub fn meson_clean(dir: &String) -> (r: Invocation)
    ensures
        r@ == meson_clean_inv(dir@),
{
    let mut args = words3(String::from_str("compile"), String::from_str("-C"), dir.clone());
    args.push(String::from_str("--clean"));
    let r = Invocation { program: String::from_str("meson"), args };
    assert(r@.args =~= meson_clean_inv(dir@).args);
    r
}

/// The `make install` invocation into `prefix`.
pub fn make_install(prefix: &String) -> (r: Invocation)
    ensures
        r@ == make_install_inv(prefix@),
{
    let mut args = words1("install");
    args.push(prefixed("PREFIX=", prefix));
    let r = Invocation { program: String::from_str("make"), args };
    assert(r@.args =~= make_install_inv(prefix@).args);
    r
}

/// The `meson configure` invocation that sets the prefix of `dir`.
pub fn meson_configure(prefix: &String, dir: &String) -> (r: Invocation)
    ensures
        r@ == meson_configure_inv(prefix@, dir@),
{
    let mut args = words3(
        String::from_str("configure"),
        String::from_str("-D"),
        prefixed("prefix=", prefix),
    );
    args.push(dir.clone());
    let r = Invocation { program: String::from_str("meson"), args };
    assert(r@.args =~= meson_configure_inv(prefix@, dir@).args);
    r
}

/// The `meson install` invocation from `dir`.
pub fn meson_install(dir: &String) -> (r: Invocation)
    ensures
        r@ == meson_install_inv(dir@),
{
    let args = words3(String::from_str("install"), String::from_str("-C"), dir.clone());
    Invocation { program: String::from_str("meson"), args }
}

/// Copies a list of strings.
fn copy_strings(v: &Vec<String>) -> (r: Vec<String>)
    ensures
        r@ == v@,
{
    let mut r: Vec<String> = Vec::new();
    let mut i: usize = 0;
    while i < v.len()
        invariant
            i <= v@.len(),
            r@ == v@.subrange(0, i as int),
        decreases v@.len() - i,
    {
        r.push(v[i].clone());
        i = i + 1;
        assert(r@ =~= v@.subrange(0, i as int));
    }
    assert(v@.subrange(0, v@.len() as int) =~= v@);
    r
}

/// The invocation of a user executable, resolved against `dir` when
/// `in_build_dir` holds.
pub fn execute(in_build_dir: bool, dir: &String, executable: &String, args: &Vec<String>) -> (r:
    Invocation)
    ensures
        r@ == execute_inv(in_build_dir, dir@, executable@, strings_view(args@)),
{
    let program = if in_build_dir {
        join_path(dir, executable)
    } else {
        executable.clone()
    };
    Invocation { program, args: copy_strings(args) }
}

} // verus!
