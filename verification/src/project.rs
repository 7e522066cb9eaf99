use vstd::prelude::*;

use crate::error::BuildError;
use crate::metadata::{ConfigField, ConfigFieldV};

verus! {

// The build system's description of the project, reduced to what the
// pipeline reads: each package's identity and configuration blocks, which
// package is the root, and the workspace paths.

/// One package of the project.
#[derive(Debug)]
pub struct PackageInfo {
    /// The package's name.
    pub name: String,
    /// The build system's opaque identity for the package, as artifact
    /// messages report it.
    pub id: String,
    /// The package's semantic version, rendered.
    pub version: String,
    /// The general configuration block, when declared.
    pub ori_config: Option<Vec<ConfigField>>,
    /// The package configuration block, when declared.
    pub apk_config: Option<Vec<ConfigField>>,
}

/// Specification-level form of `PackageInfo`.
#[verifier::ext_equal]
pub struct PackageInfoV {
    pub name: Seq<char>,
    pub id: Seq<char>,
    pub version: Seq<char>,
    pub ori_config: Option<Seq<ConfigFieldV>>,
    pub apk_config: Option<Seq<ConfigFieldV>>,
}

impl View for PackageInfo {
    type V = PackageInfoV;

    open spec fn view(&self) -> PackageInfoV {
        PackageInfoV {
            name: self.name@,
            id: self.id@,
            version: self.version@,
            ori_config: match self.ori_config {
                Some(ref v) => Some(v.deep_view()),
                None => None,
            },
            apk_config: match self.apk_config {
                Some(ref v) => Some(v.deep_view()),
                None => None,
            },
        }
    }
}

impl DeepView for PackageInfo {
    type V = PackageInfoV;

    open spec fn deep_view(&self) -> PackageInfoV {
        self.view()
    }
}

/// The project description the pipeline works from.
#[derive(Debug)]
pub struct ProjectMetadata {
    /// Every package of the project.
    pub packages: Vec<PackageInfo>,
    /// The index of the root package, when the project has one.
    pub root_package: Option<usize>,
    /// The workspace root directory.
    pub workspace_root: String,
    /// The build output directory.
    pub target_directory: String,
}

impl ProjectMetadata {
    /// A declared root package is one of the packages.
    pub open spec fn wf(&self) -> bool {
        match self.root_package {
            Some(i) => i < self.packages@.len(),
            None => true,
        }
    }
}

/// The position of the first package named `name`, if any.
pub open spec fn spec_find_package(packages: Seq<PackageInfoV>, name: Seq<char>) -> Option<int>
    decreases packages.len(),
{
    if packages.len() == 0 {
        None
    } else if packages[0].name == name {
        Some(0)
    } else {
        match spec_find_package(packages.drop_first(), name) {
            Some(i) => Some(i + 1),
            None => None,
        }
    }
}

/// A scan that matched nothing before `i` pins down `spec_find_package`.
proof fn lemma_find_package(packages: Seq<PackageInfoV>, name: Seq<char>, i: int)
    requires
        0 <= i <= packages.len(),
        forall|j: int| 0 <= j < i ==> packages[j].name != name,
    ensures
        i < packages.len() && packages[i].name == name ==> spec_find_package(packages, name)
            == Some(i),
        i == packages.len() ==> spec_find_package(packages, name) is None,
    decreases i,
{
    if i > 0 {
        assert(packages.drop_first() =~= packages.skip(1));
        lemma_find_package(packages.skip(1), name, i - 1);
    }
}

/// A found package's position is inside the list.
pub proof fn lemma_find_package_bounds(packages: Seq<PackageInfoV>, name: Seq<char>)
    ensures
        spec_find_package(packages, name) matches Some(i) ==> 0 <= i < packages.len(),
    decreases packages.len(),
{
    if packages.len() > 0 && packages[0].name != name {
        lemma_find_package_bounds(packages.drop_first(), name);
    }
}

/// Selects the package the build works on: the one with the requested
/// name, or the root package when no name was requested.  A missing name
/// and a missing root are distinct failures.
pub fn get_package(project: &ProjectMetadata, name: Option<&String>) -> (r: Result<
    usize,
    BuildError,
>)
    requires
        project.wf(),
    ensures
        match name {
            Some(n) => match r {
                Ok(i) => spec_find_package(project.packages.deep_view(), n@) == Some(i as int),
                Err(e) => e matches BuildError::PackageNotFound(v) && v@ == n@
                    && spec_find_package(project.packages.deep_view(), n@) is None,
            },
            None => match r {
                Ok(i) => project.root_package == Some(i),
                Err(e) => e is NoPackage && project.root_package is None,
            },
        },
{
    match name {
        Some(n) => {
            let ghost pv = project.packages.deep_view();
            let count = project.packages.len();
            let mut i: usize = 0;
            while i < count && !(project.packages[i].name == *n)
                invariant
                    i <= count,
                    count == project.packages@.len(),
                    pv == project.packages.deep_view(),
                    forall|j: int| 0 <= j < i ==> pv[j].name != n@,
                decreases count - i,
            {
                i = i + 1;
            }
            proof {
                lemma_find_package(pv, n@, i as int);
            }
            if i < count {
                Ok(i)
            } else {
                Err(BuildError::PackageNotFound(n.clone()))
            }
        },
        None => match project.root_package {
            Some(i) => Ok(i),
            None => Err(BuildError::NoPackage),
        },
    }
}

} // verus!
