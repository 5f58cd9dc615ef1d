use tap::{build_dir, decimal_string, join_path, BuildMode, Tap};

fn s(x: &str) -> String {
    x.to_string()
}

#[test]
fn build_dir_is_deterministic_and_mode_specific() {
    let root = s("/home/u/proj");
    let a = build_dir(&root, BuildMode::Release);
    let b = build_dir(&root, BuildMode::Release);
    assert_eq!(a, b);
    assert_eq!(a, "/home/u/proj/.tap_build_release");
    let d = build_dir(&root, BuildMode::Debug);
    assert_eq!(d, "/home/u/proj/.tap_build_debug");
    assert_ne!(a, d);
}

#[test]
fn build_dir_under_root_and_trailing_separator() {
    assert_eq!(build_dir(&s("/"), BuildMode::Debug), "/.tap_build_debug");
    assert_eq!(build_dir(&s("/p/"), BuildMode::Release), "/p/.tap_build_release");
}

#[test]
fn join_path_cases() {
    assert_eq!(join_path(&s("/b"), &s("exe")), "/b/exe");
    assert_eq!(join_path(&s("/b"), &s("sub/exe")), "/b/sub/exe");
    assert_eq!(join_path(&s("/b"), &s("/usr/bin/exe")), "/usr/bin/exe");
    assert_eq!(join_path(&s(""), &s("exe")), "exe");
    assert_eq!(join_path(&s("/b"), &s("")), "/b/");
}

#[test]
fn decimal_rendering() {
    assert_eq!(decimal_string(0), "0");
    assert_eq!(decimal_string(7), "7");
    assert_eq!(decimal_string(10), "10");
    assert_eq!(decimal_string(1234), "1234");
    assert_eq!(decimal_string(usize::MAX), usize::MAX.to_string());
}

#[test]
fn tap_prefixes() {
    assert_eq!(Tap::ChangeDirectory { path: s("/p") }.get_prefix(), ("cd", "yellow"));
    assert_eq!(Tap::RunCommand { command: s("make"), args: vec![] }.get_prefix(), ("run", "purple"));
}

#[test]
fn tap_messages() {
    assert_eq!(Tap::ChangeDirectory { path: s("/home/u/proj") }.get_message(), "/home/u/proj");
    let t = Tap::RunCommand { command: s("make"), args: vec![s("-j"), s("4")] };
    assert_eq!(t.get_message(), "make -j 4");
    let t = Tap::RunCommand { command: s("echo"), args: vec![s("a b"), s("it's")] };
    assert_eq!(t.get_message(), "echo 'a b' 'it'\\''s'");
    let t = Tap::RunCommand { command: s("true"), args: vec![s("")] };
    assert_eq!(t.get_message(), "true ''");
}
