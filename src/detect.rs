use vstd::prelude::*;

use crate::model::{BuildSystem, TapError};

verus! {

/// Which marker files a directory holds.
#[derive(Debug, Clone, Copy, PartialEq, Eq, Structural)]
pub struct DirMarkers {
    /// `CMakeLists.txt`
    pub cmake_lists: bool,
    /// `Makefile`
    pub makefile: bool,
    /// `makefile`
    pub makefile_lower: bool,
    /// `meson.build`
    pub meson_build: bool,
}

/// The build system that a directory's markers select, by precedence
/// CMake, then Make, then Meson.
pub open spec fn marker_kind(m: DirMarkers) -> Option<BuildSystem> {
    if m.cmake_lists {
        Some(BuildSystem::CMake)
    } else if m.makefile || m.makefile_lower {
        Some(BuildSystem::Make)
    } else if m.meson_build {
        Some(BuildSystem::Meson)
    } else {
        None
    }
}

/// `r` is the outcome of detection over `dirs`, a directory followed by its
/// ancestors, nearest first: the first directory with a marker and its kind,
/// or `None` when no directory has one.
pub open spec fn is_detection(dirs: Seq<DirMarkers>, r: Option<(usize, BuildSystem)>) -> bool {
    match r {
        Some((i, k)) => {
            &&& i < dirs.len()
            &&& marker_kind(dirs[i as int]) == Some(k)
            &&& forall|j: int| 0 <= j < i ==> #[trigger] marker_kind(dirs[j]) is None
        },
        None => forall|j: int| 0 <= j < dirs.len() ==> #[trigger] marker_kind(dirs[j]) is None,
    }
}

/// `r` is the build system of an invocation: the explicit choice when
/// given (no directory is selected), else the detected one with the index of
/// its directory, or a detection failure.
pub open spec fn is_resolution(
    explicit: Option<BuildSystem>,
    dirs: Seq<DirMarkers>,
    r: Result<(BuildSystem, Option<usize>), TapError>,
) -> bool {
    match explicit {
        Some(k) => r == Ok::<_, TapError>((k, None::<usize>)),
        None => match r {
            Ok((k, Some(i))) => is_detection(dirs, Some((i, k))),
            Ok((_, None)) => false,
            Err(e) => e == TapError::DetectionFailure && is_detection(dirs, None),
        },
    }
}

impl BuildSystem {
    /// The build system that one directory's markers select.
    pub fn detect_in_dir(markers: &DirMarkers) -> (r: Option<BuildSystem>)
        ensures
            r == marker_kind(*markers),
    {
        if markers.cmake_lists {
            Some(BuildSystem::CMake)
        } else if markers.makefile || markers.makefile_lower {
            Some(BuildSystem::Make)
        } else if markers.meson_build {
            Some(BuildSystem::Meson)
        } else {
            None
        }
    }

    /// Searches `dirs` (the working directory, then each ancestor up to the
    /// root) for the nearest directory with a marker, and returns its index
    /// and build system.
    pub fn detect(dirs: &Vec<DirMarkers>) -> (r: Option<(usize, BuildSystem)>)
        ensures
            is_detection(dirs@, r),
    {
        let mut i: usize = 0;
        while i < dirs.len()
            invariant
                i <= dirs@.len(),
                forall|j: int| 0 <= j < i ==> #[trigger] marker_kind(dirs@[j]) is None,
            decreases dirs@.len() - i,
        {
            if let Some(k) = BuildSystem::detect_in_dir(&dirs[i]) {
                return Some((i, k));
            }
            i = i + 1;
        }
        None
    }

    /// The build system of an invocation: the explicit choice when given, else
    /// the detected one with the index of the directory that holds its marker.
    pub fn resolve(explicit: Option<BuildSystem>, dirs: &Vec<DirMarkers>) -> (r: Result<
        (BuildSystem, Option<usize>),
        TapError,
    >)
        ensures
            is_resolution(explicit, dirs@, r),
    {
        match explicit {
            Some(k) => Ok((k, None)),
            None => match BuildSystem::detect(dirs) {
                Some((i, k)) => Ok((k, Some(i))),
                None => Err(TapError::DetectionFailure),
            },
        }
    }
}

/// Detection is nearest-match: when directory `i` holds a marker and no
/// nearer directory does, detection selects directory `i` and its build
/// system, whatever the farther directories hold.
pub proof fn lemma_detection_is_nearest(
    dirs: Seq<DirMarkers>,
    i: int,
    r: Option<(usize, BuildSystem)>,
)
    requires
        0 <= i < dirs.len(),
        marker_kind(dirs[i]) is Some,
        forall|j: int| 0 <= j < i ==> #[trigger] marker_kind(dirs[j]) is None,
        is_detection(dirs, r),
    ensures
        r == Some((i as usize, marker_kind(dirs[i])->0)),
{
    match r {
        Some((n, k)) => {
            if (n as int) < i {
                assert(marker_kind(dirs[n as int]) is None);
            } else if (n as int) > i {
                assert(marker_kind(dirs[i]) is None);
            }
        },
        None => {
            assert(marker_kind(dirs[i]) is None);
        },
    }
}

/// Detection that reaches the root without a marker fails: it yields no
/// build system, and without an explicit choice the invocation fails with a
/// detection failure rather than a default.
pub proof fn lemma_detection_fails_without_markers(
    dirs: Seq<DirMarkers>,
    r: Option<(usize, BuildSystem)>,
    resolved: Result<(BuildSystem, Option<usize>), TapError>,
)
    requires
        forall|j: int| 0 <= j < dirs.len() ==> #[trigger] marker_kind(dirs[j]) is None,
        is_detection(dirs, r),
        is_resolution(None, dirs, resolved),
    ensures
        r is None,
        resolved == Err::<(BuildSystem, Option<usize>), _>(TapError::DetectionFailure),
{
    if let Some((n, k)) = r {
        assert(marker_kind(dirs[n as int]) is None);
    }
    if let Ok((k, Some(n))) = resolved {
        assert(marker_kind(dirs[n as int]) is None);
    }
}

} // verus!
