use tap::{BuildSystem, DirMarkers, TapError};

fn markers(cmake_lists: bool, makefile: bool, makefile_lower: bool, meson_build: bool) -> DirMarkers {
    DirMarkers { cmake_lists, makefile, makefile_lower, meson_build }
}

fn none() -> DirMarkers {
    markers(false, false, false, false)
}

#[test]
fn inner_meson_wins_over_outer_makefile() {
    let dirs = vec![none(), markers(false, false, false, true), markers(false, true, false, false)];
    assert_eq!(BuildSystem::detect(&dirs), Some((1, BuildSystem::Meson)));
}

#[test]
fn nearest_directory_is_the_working_directory() {
    let dirs = vec![markers(false, false, false, true), markers(true, false, false, false)];
    assert_eq!(BuildSystem::detect(&dirs), Some((0, BuildSystem::Meson)));
}

#[test]
fn no_marker_up_to_root_fails() {
    let dirs = vec![none(), none(), none()];
    assert_eq!(BuildSystem::detect(&dirs), None);
    assert_eq!(BuildSystem::resolve(None, &dirs), Err(TapError::DetectionFailure));
}

#[test]
fn empty_ancestry_fails() {
    assert_eq!(BuildSystem::detect(&Vec::new()), None);
}

#[test]
fn marker_precedence_within_one_directory() {
    assert_eq!(BuildSystem::detect_in_dir(&markers(true, true, true, true)), Some(BuildSystem::CMake));
    assert_eq!(BuildSystem::detect_in_dir(&markers(false, true, false, true)), Some(BuildSystem::Make));
    assert_eq!(BuildSystem::detect_in_dir(&markers(false, false, true, true)), Some(BuildSystem::Make));
    assert_eq!(BuildSystem::detect_in_dir(&markers(false, false, false, true)), Some(BuildSystem::Meson));
    assert_eq!(BuildSystem::detect_in_dir(&none()), None);
}

#[test]
fn explicit_choice_wins_over_markers() {
    let dirs = vec![markers(false, true, false, false)];
    assert_eq!(BuildSystem::resolve(Some(BuildSystem::Meson), &dirs), Ok((BuildSystem::Meson, None)));
    assert_eq!(BuildSystem::resolve(Some(BuildSystem::Make), &Vec::new()), Ok((BuildSystem::Make, None)));
}

#[test]
fn resolve_reports_the_detected_directory() {
    let dirs = vec![none(), none(), markers(false, false, true, false)];
    assert_eq!(BuildSystem::resolve(None, &dirs), Ok((BuildSystem::Make, Some(2))));
}
