//! The project that is built: its workspace, its units and where its output
//! goes.
//!
//! A `ProjectContext` is made once, when the program starts, and only read
//! from then on: it has no operation that changes it.

use vstd::prelude::*;
use vstd::string::*;
use crate::hooks::Hooks;
use crate::path::FsPath;
use crate::text::same_text;

verus! {

/// A buildable unit of the workspace.
#[derive(Debug)]
pub struct Package {
    /// The unit's name.
    pub name: String,
    /// What identifies the unit among all packages, its version included.
    pub id: String,
    /// The directory that holds the unit's manifest.
    pub manifest_dir: FsPath,
    /// The manifest's file name.
    pub manifest_name: String,
    /// The names of the packages that the unit depends on.
    pub dependencies: Vec<String>,
}

/// What the package manager knows of the workspace.
#[derive(Debug)]
pub struct Metadata {
    /// All packages: the workspace's own and those they depend on.
    pub packages: Vec<Package>,
    /// The ids of the workspace's own packages.
    pub workspace_members: Vec<String>,
    /// The workspace's root directory.
    pub workspace_root: FsPath,
    /// The directory that the toolchain builds in and caches to.
    pub target_directory: FsPath,
}

/// Why no context was made.
#[derive(Debug, PartialEq, Eq, Clone, Copy, Structural)]
pub enum InitError {
    /// No package has the frontend unit's name.
    FrontendNotFound,
    /// No package has the backend unit's name.
    BackendNotFound,
}

/// What is said of a context that could not be made.
pub open spec fn init_error_text(error: InitError) -> Seq<char> {
    match error {
        InitError::FrontendNotFound => "frontend package not found"@,
        InitError::BackendNotFound => "backend package not found"@,
    }
}

impl InitError {
    /// What is said of the error.
    pub fn message(&self) -> (r: &'static str)
        ensures
            r@ == init_error_text(*self),
    {
        match self {
            InitError::FrontendNotFound => "frontend package not found",
            InitError::BackendNotFound => "backend package not found",
        }
    }
}

/// The first package of that name, where there is one.
pub open spec fn first_named(packages: Seq<Package>, name: Seq<char>) -> Option<int>
    decreases packages.len(),
{
    if packages.len() == 0 {
        None
    } else {
        match first_named(packages.drop_last(), name) {
            Some(i) => Some(i),
            None => if packages.last().name@ == name {
                Some(packages.len() - 1)
            } else {
                None
            },
        }
    }
}

/// The id is that of one of the workspace's own packages.
pub open spec fn member_id(members: Seq<String>, id: Seq<char>) -> bool {
    exists|k: int| 0 <= k < members.len() && #[trigger] members[k]@ == id
}

/// `first_named` gives the least position of a package of that name, and
/// `None` exactly where no package has it.
pub proof fn lemma_first_named(packages: Seq<Package>, name: Seq<char>)
    ensures
        match first_named(packages, name) {
            Some(i) => 0 <= i < packages.len() && packages[i].name@ == name && forall|j: int|
                0 <= j < i ==> (#[trigger] packages[j]).name@ != name,
            None => forall|j: int| 0 <= j < packages.len() ==> (#[trigger] packages[j]).name@
                != name,
        },
    decreases packages.len(),
{
    if packages.len() > 0 {
        let head = packages.drop_last();
        lemma_first_named(head, name);
        match first_named(head, name) {
            Some(i) => {
                assert(head[i] == packages[i]);
                assert forall|j: int| 0 <= j < i implies (#[trigger] packages[j]).name@
                    != name by {
                    assert(head[j] == packages[j]);
                }
            },
            None => {
                assert forall|j: int| 0 <= j < packages.len() - 1 implies (
                #[trigger] packages[j]).name@ != name by {
                    assert(head[j] == packages[j]);
                }
            },
        }
    }
}

/// The position of the first package of that name.
pub fn find_package(packages: &Vec<Package>, name: &str) -> (r: Option<usize>)
    ensures
        r is Some <==> first_named(packages@, name@) is Some,
        r matches Some(i) ==> first_named(packages@, name@) == Some(i as int) && i
            < packages@.len(),
{
    let mut i: usize = 0;
    while i < packages.len()
        invariant
            i <= packages@.len(),
            forall|j: int| 0 <= j < i ==> (#[trigger] packages@[j]).name@ != name@,
        decreases packages@.len() - i,
    {
        if same_text(packages[i].name.as_str(), name) {
            proof {
                lemma_first_named(packages@, name@);
            }
            return Some(i);
        }
        i += 1;
    }
    proof {
        lemma_first_named(packages@, name@);
    }
    None
}

/// Is the id that of one of the workspace's own packages?
pub fn is_member(members: &Vec<String>, id: &str) -> (r: bool)
    ensures
        r == member_id(members@, id@),
{
    let mut k: usize = 0;
    while k < members.len()
        invariant
            k <= members@.len(),
            forall|j: int| 0 <= j < k ==> (#[trigger] members@[j])@ != id@,
        decreases members@.len() - k,
    {
        if same_text(members[k].as_str(), id) {
            return true;
        }
        k += 1;
    }
    false
}

impl Package {
    /// The path of the unit's manifest.
    pub fn manifest_path(&self) -> (r: FsPath)
        ensures
            r@ == self.manifest_dir@.push(self.manifest_name@),
    {
        self.manifest_dir.join(self.manifest_name.as_str())
    }
}

/// What every part of the program reads about the project.
#[derive(Debug)]
pub struct ProjectContext {
    metadata: Metadata,
    frontend: usize,
    backend: Option<usize>,
    default_build_path: FsPath,
    hooks: Hooks,
}

impl ProjectContext {
    #[verifier::type_invariant]
    spec fn valid(&self) -> bool {
        &&& self.frontend < self.metadata.packages@.len()
        &&& self.backend matches Some(b) ==> b < self.metadata.packages@.len()
    }

    /// What the package manager knows of the workspace.
    pub closed spec fn spec_metadata(&self) -> Metadata {
        self.metadata
    }

    /// The position of the frontend unit among the packages.
    pub closed spec fn spec_frontend(&self) -> int {
        self.frontend as int
    }

    /// The position of the backend unit among the packages, where one was
    /// named.
    pub closed spec fn spec_backend(&self) -> Option<int> {
        match self.backend {
            Some(b) => Some(b as int),
            None => None,
        }
    }

    /// The output directory of a build that names none.
    pub closed spec fn spec_default_build_path(&self) -> Seq<Seq<char>> {
        self.default_build_path@
    }

    /// Which hooks run.
    pub closed spec fn spec_hooks(&self) -> Hooks {
        self.hooks
    }

    /// The frontend unit.
    pub open spec fn spec_frontend_package(&self) -> Package {
        self.spec_metadata().packages@[self.spec_frontend()]
    }

    /// What the package manager knows of the workspace.
    pub fn metadata(&self) -> (r: &Metadata)
        ensures
            *r == self.spec_metadata(),
    {
        &self.metadata
    }

    /// The frontend unit.
    pub fn frontend_package(&self) -> (r: &Package)
        ensures
            0 <= self.spec_frontend() < self.spec_metadata().packages@.len(),
            *r == self.spec_frontend_package(),
    {
        proof {
            use_type_invariant(self);
        }
        &self.metadata.packages[self.frontend]
    }

    /// The backend unit, where one was named.
    pub fn backend_package(&self) -> (r: Option<&Package>)
        ensures
            r is Some <==> self.spec_backend() is Some,
            self.spec_backend() matches Some(b) ==> 0 <= b < self.spec_metadata().packages@.len(),
            r matches Some(p) ==> *p == self.spec_metadata().packages@[self.spec_backend()->0],
    {
        proof {
            use_type_invariant(self);
        }
        match self.backend {
            Some(b) => Some(&self.metadata.packages[b]),
            None => None,
        }
    }

    /// The output directory of a build that names none.
    pub fn default_build_path(&self) -> (r: &FsPath)
        ensures
            r@ == self.spec_default_build_path(),
    {
        &self.default_build_path
    }

    /// The directory that the toolchain builds in and caches to.
    pub fn target_path(&self) -> (r: &FsPath)
        ensures
            *r == self.spec_metadata().target_directory,
    {
        &self.metadata.target_directory
    }

    /// Which hooks run.
    pub fn hooks(&self) -> (r: Hooks)
        ensures
            r == self.spec_hooks(),
    {
        self.hooks
    }
}

/// A backend unit was named and no package has its name.
pub open spec fn backend_missing(packages: Seq<Package>, backend_pkg_name: Option<&str>) -> bool {
    match backend_pkg_name {
        Some(name) => first_named(packages, name@) is None,
        None => false,
    }
}

/// Makes the context that the rest of the program reads. The frontend unit is
/// the first package named `pkg_name`, the backend unit the first one named
/// `backend_pkg_name`. Where no default output directory is given, it is
/// `build` under the workspace's root.
pub fn wasmbl_init(
    pkg_name: &str,
    backend_pkg_name: Option<&str>,
    default_build_path: Option<FsPath>,
    hooks: Hooks,
    metadata: Metadata,
) -> (r: Result<ProjectContext, InitError>)
    ensures
        first_named(metadata.packages@, pkg_name@) is None ==> (r matches Err(e) && e
            == InitError::FrontendNotFound),
        first_named(metadata.packages@, pkg_name@) is Some && backend_missing(
            metadata.packages@,
            backend_pkg_name,
        ) ==> (r matches Err(e) && e == InitError::BackendNotFound),
        first_named(metadata.packages@, pkg_name@) is Some && !backend_missing(
            metadata.packages@,
            backend_pkg_name,
        ) ==> r is Ok,
        r matches Ok(ctx) ==> {
            &&& ctx.spec_metadata() == metadata
            &&& ctx.spec_hooks() == hooks
            &&& Some(ctx.spec_frontend()) == first_named(metadata.packages@, pkg_name@)
            &&& ctx.spec_backend() == (match backend_pkg_name {
                Some(name) => first_named(metadata.packages@, name@),
                None => None,
            })
            &&& ctx.spec_default_build_path() == (match default_build_path {
                Some(path) => path@,
                None => metadata.workspace_root@.push("build"@),
            })
        },
{
    let frontend = match find_package(&metadata.packages, pkg_name) {
        Some(i) => i,
        None => {
            return Err(InitError::FrontendNotFound);
        },
    };
    let backend = match backend_pkg_name {
        Some(name) => match find_package(&metadata.packages, name) {
            Some(i) => Some(i),
            None => {
                return Err(InitError::BackendNotFound);
            },
        },
        None => None,
    };
    let default_build_path = match default_build_path {
        Some(path) => path,
        None => metadata.workspace_root.join("build"),
    };
    Ok(ProjectContext { metadata, frontend, backend, default_build_path, hooks })
}

} // verus!
