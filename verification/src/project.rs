//! The Rust project being packaged: which package of the `cargo metadata`
//! output is it, which of its targets is the library, and where its static
//! library is built.
use vstd::prelude::*;
use crate::error::{AppResult, OhosAppError};
use crate::paths::{all_plain, components, has_named_component, join_all, joins_to, open_ended, parent_text, path_parent, slash_path, views};
use crate::text::{concat3, lemma_swapped_removes, owned, replace_char, str_eq, swapped};

verus! {

/// A build target of a package, as `cargo metadata` lists it.
#[derive(Debug, Clone)]
pub struct TargetSummary {
    pub name: String,
    pub kinds: Vec<String>,
    pub crate_types: Vec<String>,
}

/// A package of the `cargo metadata` output. `manifest_path` is its manifest
/// path made canonical, or `None` where that failed.
#[derive(Debug, Clone)]
pub struct PackageSummary {
    pub name: String,
    pub manifest_path: Option<String>,
    pub targets: Vec<TargetSummary>,
}

/// What the project logic reads of the `cargo metadata` output.
#[derive(Debug, Clone)]
pub struct MetadataSummary {
    pub packages: Vec<PackageSummary>,
    pub target_directory: String,
}

#[derive(Debug, Clone)]
pub struct ProjectInfo {
    pub manifest_path: String,
    pub project_dir: String,
    pub package_name: String,
    pub lib_name: String,
    pub target_dir: String,
}

pub open spec fn is_library_kind(k: Seq<char>) -> bool {
    k == "lib"@ || k == "cdylib"@ || k == "staticlib"@
}

pub open spec fn is_library_crate_type(k: Seq<char>) -> bool {
    k == "cdylib"@ || k == "staticlib"@
}

/// A target that builds a library that can be linked into the OHOS shell.
pub open spec fn is_library_target(t: TargetSummary) -> bool {
    (exists|i: int| 0 <= i < t.kinds@.len() && is_library_kind(#[trigger] t.kinds@[i]@))
        || (exists|i: int| 0 <= i < t.crate_types@.len() && is_library_crate_type(#[trigger] t.crate_types@[i]@))
}

/// `k` is the first index of `ts` whose target is a library.
pub open spec fn first_library(ts: Seq<TargetSummary>, k: int) -> bool {
    &&& 0 <= k < ts.len()
    &&& is_library_target(ts[k])
    &&& forall|j: int| 0 <= j < k ==> !is_library_target(#[trigger] ts[j])
}

pub open spec fn manifest_matches(p: PackageSummary, manifest: Seq<char>) -> bool {
    p.manifest_path matches Some(m) && m@ == manifest
}

/// `k` is the first index of `ps` whose package has the manifest `manifest`.
pub open spec fn first_package(ps: Seq<PackageSummary>, manifest: Seq<char>, k: int) -> bool {
    &&& 0 <= k < ps.len()
    &&& manifest_matches(ps[k], manifest)
    &&& forall|j: int| 0 <= j < k ==> !manifest_matches(#[trigger] ps[j], manifest)
}

/// Whether one of `names` is one of `options`.
fn any_named(names: &Vec<String>, options: &[&str]) -> (res: bool)
    ensures
        res == exists|i: int, j: int|
            0 <= i < names@.len() && 0 <= j < options@.len() && #[trigger] names@[i]@ == #[trigger] options@[j]@,
{
    let mut i: usize = 0;
    while i < names.len()
        invariant
            i <= names@.len(),
            forall|a: int, b: int|
                0 <= a < i && 0 <= b < options@.len() ==> #[trigger] names@[a]@ != #[trigger] options@[b]@,
        decreases names@.len() - i,
    {
        let mut j: usize = 0;
        while j < options.len()
            invariant
                i < names@.len(),
                j <= options@.len(),
                forall|a: int, b: int|
                    0 <= a < i && 0 <= b < options@.len() ==> #[trigger] names@[a]@ != #[trigger] options@[b]@,
                forall|b: int| 0 <= b < j ==> names@[i as int]@ != #[trigger] options@[b]@,
            decreases options@.len() - j,
        {
            if str_eq(names[i].as_str(), options[j]) {
                return true;
            }
            j = j + 1;
        }
        i = i + 1;
    }
    false
}

/// The first target that builds a linkable library.
pub fn find_library_target(targets: &Vec<TargetSummary>) -> (res: Option<usize>)
    ensures
        match res {
            Some(k) => first_library(targets@, k as int),
            None => forall|j: int| 0 <= j < targets@.len() ==> !is_library_target(#[trigger] targets@[j]),
        },
{
    let kinds: [&str; 3] = ["lib", "cdylib", "staticlib"];
    let crate_types: [&str; 2] = ["cdylib", "staticlib"];
    assert(kinds@ =~= seq!["lib", "cdylib", "staticlib"]);
    assert(crate_types@ =~= seq!["cdylib", "staticlib"]);
    let mut i: usize = 0;
    while i < targets.len()
        invariant
            i <= targets@.len(),
            kinds@ == seq!["lib", "cdylib", "staticlib"],
            crate_types@ == seq!["cdylib", "staticlib"],
            forall|j: int| 0 <= j < i ==> !is_library_target(#[trigger] targets@[j]),
        decreases targets@.len() - i,
    {
        let t = &targets[i];
        let by_kind = any_named(&t.kinds, kinds.as_slice());
        let by_type = any_named(&t.crate_types, crate_types.as_slice());
        proof {
            if by_kind {
                let (a, b) = choose|a: int, b: int|
                    0 <= a < t.kinds@.len() && 0 <= b < kinds@.len() && #[trigger] t.kinds@[a]@ == #[trigger] kinds@[b]@;
                assert(is_library_kind(t.kinds@[a]@));
            }
            if by_type {
                let (a, b) = choose|a: int, b: int|
                    0 <= a < t.crate_types@.len() && 0 <= b < crate_types@.len() && #[trigger] t.crate_types@[a]@ == #[trigger] crate_types@[b]@;
                assert(is_library_crate_type(t.crate_types@[a]@));
            }
            if !by_kind {
                assert forall|a: int| 0 <= a < t.kinds@.len() implies !is_library_kind(#[trigger] t.kinds@[a]@) by {
                    assert(t.kinds@[a]@ != kinds@[0]@);
                    assert(t.kinds@[a]@ != kinds@[1]@);
                    assert(t.kinds@[a]@ != kinds@[2]@);
                }
            }
            if !by_type {
                assert forall|a: int| 0 <= a < t.crate_types@.len() implies !is_library_crate_type(#[trigger] t.crate_types@[a]@) by {
                    assert(t.crate_types@[a]@ != crate_types@[0]@);
                    assert(t.crate_types@[a]@ != crate_types@[1]@);
                }
            }
        }
        if by_kind || by_type {
            return Some(i);
        }
        i = i + 1;
    }
    None
}

/// The first package whose canonical manifest path is `manifest`.
pub fn find_package(packages: &Vec<PackageSummary>, manifest: &str) -> (res: Option<usize>)
    ensures
        match res {
            Some(k) => first_package(packages@, manifest@, k as int),
            None => forall|j: int| 0 <= j < packages@.len() ==> !manifest_matches(#[trigger] packages@[j], manifest@),
        },
{
    let mut i: usize = 0;
    while i < packages.len()
        invariant
            i <= packages@.len(),
            forall|j: int| 0 <= j < i ==> !manifest_matches(#[trigger] packages@[j], manifest@),
        decreases packages@.len() - i,
    {
        let found = match &packages[i].manifest_path {
            Some(m) => str_eq(m.as_str(), manifest),
            None => false,
        };
        if found {
            return Some(i);
        }
        i = i + 1;
    }
    None
}

pub open spec fn no_package_message(manifest: Seq<char>) -> Seq<char> {
    "could not locate package metadata for manifest ["@ + manifest + "]"@
}

pub open spec fn no_parent_message() -> Seq<char> {
    "manifest path has no parent directory"@
}

/// The project described by `metadata` for the canonical manifest path
/// `manifest_path` and its parent directory `parent`.
pub open spec fn describes_project(
    info: ProjectInfo,
    manifest_path: Seq<char>,
    metadata: MetadataSummary,
    parent: Seq<char>,
) -> bool {
    exists|p: int, t: int|
        #![trigger first_package(metadata.packages@, manifest_path, p), first_library(metadata.packages@[p].targets@, t)]
        first_package(metadata.packages@, manifest_path, p) && first_library(metadata.packages@[p].targets@, t)
            && info.manifest_path@ == manifest_path && info.project_dir@ == parent
            && info.package_name@ == metadata.packages@[p].name@
            && info.lib_name@ == swapped(metadata.packages@[p].targets@[t].name@, '-', '_')
            && info.target_dir@ == metadata.target_directory@
}

/// What reading the project gives, for the canonical manifest path, the
/// `cargo metadata` output and the manifest's parent directory: the project
/// when a package has that manifest, that package has a library target and
/// there is a parent; otherwise the error for the first of these that fails.
pub open spec fn project_outcome(
    res: AppResult<ProjectInfo>,
    manifest_path: Seq<char>,
    metadata: MetadataSummary,
    parent: Option<String>,
) -> bool {
    match res {
        Ok(info) => parent matches Some(d) && describes_project(info, manifest_path, metadata, d@),
        Err(e) => {
            ||| (forall|j: int| 0 <= j < metadata.packages@.len() ==> !manifest_matches(#[trigger] metadata.packages@[j], manifest_path))
                && (e matches OhosAppError::Message(m) && m@ == no_package_message(manifest_path))
            ||| (exists|p: int| #[trigger] first_package(metadata.packages@, manifest_path, p)
                && forall|j: int| 0 <= j < metadata.packages@[p].targets@.len() ==> !is_library_target(#[trigger] metadata.packages@[p].targets@[j]))
                && (e matches OhosAppError::MissingLibraryTarget { manifest_path: m } && m@ == manifest_path)
            ||| (exists|p: int, t: int| #[trigger] first_package(metadata.packages@, manifest_path, p)
                && #[trigger] first_library(metadata.packages@[p].targets@, t))
                && parent is None
                && (e matches OhosAppError::Message(m) && m@ == no_parent_message())
        },
    }
}

impl ProjectInfo {
    /// Reads the project out of the `cargo metadata` output, given the
    /// canonical manifest path and the directory that holds it.
    pub fn from_parts(manifest_path: &str, metadata: &MetadataSummary, parent: Option<String>) -> (res: AppResult<ProjectInfo>)
        ensures
            project_outcome(res, manifest_path@, *metadata, parent),
    {
        let p = match find_package(&metadata.packages, manifest_path) {
            Some(p) => p,
            None => {
                return Err(OhosAppError::Message(concat3("could not locate package metadata for manifest [", manifest_path, "]")));
            },
        };
        let package = &metadata.packages[p];
        let t = match find_library_target(&package.targets) {
            Some(t) => t,
            None => {
                return Err(OhosAppError::MissingLibraryTarget { manifest_path: owned(manifest_path) });
            },
        };
        let project_dir = match parent {
            Some(d) => d,
            None => {
                return Err(OhosAppError::Message(owned("manifest path has no parent directory")));
            },
        };
        let info = ProjectInfo {
            manifest_path: owned(manifest_path),
            project_dir,
            package_name: package.name.clone(),
            lib_name: replace_char(package.targets[t].name.as_str(), '-', '_'),
            target_dir: metadata.target_directory.clone(),
        };
        assert(first_package(metadata.packages@, manifest_path@, p as int));
        assert(first_library(metadata.packages@[p as int].targets@, t as int));
        Ok(info)
    }

    /// Reads the project out of the `cargo metadata` output for the canonical
    /// manifest path. The project directory is the manifest's parent, which
    /// `std::path` computes. A path with a named component (such as a
    /// canonical manifest path) has one, so reading such a project fails only
    /// as `from_parts` does without the parent's error; for a path of named
    /// components written with `/` it is the text before the last `/`. For
    /// other paths (Windows paths with `\`) which parent comes is not stated.
    pub fn from_metadata(manifest_path: &str, metadata: &MetadataSummary) -> (res: AppResult<ProjectInfo>)
        ensures
            exists|parent: Option<String>|
                #![trigger project_outcome(res, manifest_path@, *metadata, parent)]
                project_outcome(res, manifest_path@, *metadata, parent) && (has_named_component(manifest_path@)
                    ==> parent is Some),
            res matches Ok(info) ==> describes_project(info, manifest_path@, *metadata, info.project_dir@),
            slash_path(manifest_path@) ==> (res matches Ok(info) ==> info.project_dir@ == parent_text(manifest_path@)),
    {
        let parent = path_parent(manifest_path);
        Self::from_parts(manifest_path, metadata, parent)
    }

    /// Where `cargo rustc --target <target>` puts the static library of the
    /// project for the profile directory `profile_dir`.
    pub fn static_artifact_path(&self, target: &str, profile_dir: &str) -> (res: String)
        ensures
            open_ended(self.target_dir@) && all_plain(
                seq![target@, profile_dir@, static_lib_file(self.lib_name@)],
            ) ==> joins_to(res@, self.target_dir@, seq![target@, profile_dir@, static_lib_file(self.lib_name@)]),
    {
        let file = concat3("lib", self.lib_name.as_str(), ".a");
        let parts = components(&[target, profile_dir, file.as_str()]);
        assert(views(parts@) =~= seq![target@, profile_dir@, static_lib_file(self.lib_name@)]);
        join_all(self.target_dir.as_str(), &parts)
    }
}

/// The file name of the static library of a crate named `lib_name`.
pub open spec fn static_lib_file(lib_name: Seq<char>) -> Seq<char> {
    "lib"@ + lib_name + ".a"@
}

/// The library name of a project holds no `-`: cargo's crate names use `_`.
pub proof fn lemma_lib_name_without_dash(
    info: ProjectInfo,
    manifest_path: Seq<char>,
    metadata: MetadataSummary,
    parent: Seq<char>,
)
    requires
        describes_project(info, manifest_path, metadata, parent),
    ensures
        !info.lib_name@.contains('-'),
{
    let (p, t) = choose|p: int, t: int|
        #![trigger first_package(metadata.packages@, manifest_path, p), first_library(metadata.packages@[p].targets@, t)]
        first_package(metadata.packages@, manifest_path, p) && first_library(metadata.packages@[p].targets@, t)
            && info.manifest_path@ == manifest_path && info.project_dir@ == parent
            && info.package_name@ == metadata.packages@[p].name@
            && info.lib_name@ == swapped(metadata.packages@[p].targets@[t].name@, '-', '_')
            && info.target_dir@ == metadata.target_directory@;
    lemma_swapped_removes(metadata.packages@[p].targets@[t].name@, '-', '_');
}

} // verus!
