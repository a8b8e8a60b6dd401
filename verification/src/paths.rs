//! Paths of manifests and of dependencies.
//!
//! A path is taken apart and put together as the platform does that the
//! program is built for.
use crate::context::Context;
use cargo_metadata::camino::Utf8Path;
use vstd::prelude::*;

verus! {

/// The path without its last component: what `Utf8Path::parent` returns.
pub uninterp spec fn path_parent(path: Seq<char>) -> Option<Seq<char>>;

/// The rest of a path behind a base: what `Utf8Path::strip_prefix` returns.
pub uninterp spec fn path_strip_prefix(path: Seq<char>, base: Seq<char>) -> Option<Seq<char>>;

/// A path adjoined to a base: what `Utf8Path::join` returns.
pub uninterp spec fn path_join(base: Seq<char>, path: Seq<char>) -> Seq<char>;

/// Whether two paths have the same components: what `==` says of a `PathBuf` and a `Utf8Path`.
pub uninterp spec fn path_eq(left: Seq<char>, right: Seq<char>) -> bool;

/// The texts in the entries of a table of a manifest, by the key of the entry.
/// An entry that is not a text has none here, and what is not a table has no entries.
pub uninterp spec fn table_texts(table: toml_edit::Item) -> Map<Seq<char>, Seq<char>>;

/// An item of a manifest.
#[verifier::external_type_specification]
#[verifier::external_body]
pub struct ExItem(toml_edit::Item);

/// The view of a text that may be missing.
pub open spec fn text_view(text: Option<String>) -> Option<Seq<char>> {
    match text {
        Some(text) => Some(text@),
        None => None,
    }
}

/// Calls `Utf8Path::parent`, whose result depends on the path alone.
#[verifier::external_body]
fn parent(path: &str) -> (parent: Option<String>)
    ensures
        text_view(parent) == path_parent(path@),
{
    Utf8Path::new(path).parent().map(|parent| parent.to_string())
}

/// Calls `Utf8Path::strip_prefix`, whose result depends on its arguments alone:
/// it gives a path that, when joined onto the base, yields the path, or nothing
/// where the base is not a prefix.
#[verifier::external_body]
fn strip_prefix(path: &str, base: &str) -> (rest: Option<String>)
    ensures
        text_view(rest) == path_strip_prefix(path@, base@),
        rest matches Some(rest) ==> path_eq(path_join(base@, rest@), path@),
{
    Utf8Path::new(path).strip_prefix(base).ok().map(|rest| rest.to_string())
}

/// Calls `Utf8Path::join`, whose result depends on its arguments alone. That
/// the result begins with the base is not claimed: an absolute path takes the
/// place of the base, and some platforms know more paths that do.
#[verifier::external_body]
fn join(base: &str, path: &str) -> (joined: String)
    ensures
        joined@ == path_join(base@, path@),
{
    Utf8Path::new(base).join(path).to_string()
}

/// Calls `==` on a `PathBuf` and a `Utf8Path`, whose result depends on the two
/// alone.
#[verifier::external_body]
fn same_path(left: &str, right: &str) -> (same: bool)
    ensures
        same == path_eq(left@, right@),
{
    std::path::PathBuf::from(left) == Utf8Path::new(right)
}

/// Calls `get` and `as_str` of `toml_edit` on a table or an inline table: the
/// text of the entry with this key, if there is such an entry and it is a text.
#[verifier::external_body]
fn table_text(table: &toml_edit::Item, key: &str) -> (text: Option<String>)
    ensures
        text is Some <==> table_texts(*table).contains_key(key@),
        text matches Some(text) ==> text@ == table_texts(*table)[key@],
{
    let item = table.as_table_like().and_then(|table| table.get(key));
    item.and_then(|item| item.as_str()).map(|text| text.to_string())
}

/// The directory that a manifest is in. `None` if its path ends in a root.
pub fn manifest_dir(local_manifest: &str) -> (dir: Option<String>)
    ensures
        text_view(dir) == path_parent(local_manifest@),
{
    parent(local_manifest)
}

/// The directory that a project is in, given the parent of its root: the root
/// itself where it has no parent.
pub fn parent_or_root(project_root: &str, parent: Option<String>) -> (dir: String)
    ensures
        dir@ == match parent {
            Some(parent) => parent@,
            None => project_root@,
        },
{
    match parent {
        Some(parent) => parent,
        None => project_root.to_owned(),
    }
}

/// The directory that a project is in: the root itself where it has no parent.
pub open spec fn parent_root(project_root: Seq<char>) -> Seq<char> {
    match path_parent(project_root) {
        Some(parent) => parent,
        None => project_root,
    }
}

/// The way to a manifest directory from the directory that its project is in.
/// `None` if the manifest directory is not in there.
pub open spec fn way_to(project_root: Seq<char>, manifest_dir: Seq<char>) -> Option<Seq<char>> {
    path_strip_prefix(manifest_dir, parent_root(project_root))
}

/// Where a manifest directory is after its project has been copied.
pub open spec fn moved_dir(
    old_project_root: Seq<char>,
    old_manifest_dir: Seq<char>,
    new_project_root: Seq<char>,
) -> Option<Seq<char>> {
    match way_to(old_project_root, old_manifest_dir) {
        Some(way) => Some(path_join(new_project_root, way)),
        None => None,
    }
}

/// Where a manifest directory of the project at `old_project_root` is after the
/// project has been copied into `new_project_root`. The copy has what the
/// directory around the old root has; a manifest directory outside of that is
/// an error. The way from the new root to the result is the one from the
/// directory around the old root to the old manifest directory. So a copy into
/// that directory is where the old project is.
pub fn new_manifest_dir_path(
    old_project_root: &str,
    old_manifest_dir: &str,
    new_project_root: &str,
) -> (path: Result<String, Context>)
    ensures
        path is Ok <==> moved_dir(old_project_root@, old_manifest_dir@, new_project_root@) is Some,
        path matches Err(context) ==> context == Context::StripManifestPrefix,
        path matches Ok(path) ==> moved_dir(
            old_project_root@,
            old_manifest_dir@,
            new_project_root@,
        ) == Some(path@),
        path is Ok ==> path_eq(
            path_join(
                parent_root(old_project_root@),
                way_to(old_project_root@, old_manifest_dir@)->Some_0,
            ),
            old_manifest_dir@,
        ),
        path_parent(old_project_root@) matches Some(around) ==> match path_strip_prefix(
            old_manifest_dir@,
            around,
        ) {
            Some(way) => path matches Ok(path) && path@ == path_join(new_project_root@, way),
            None => path is Err,
        },
        path_parent(old_project_root@) is None ==> match path_strip_prefix(
            old_manifest_dir@,
            old_project_root@,
        ) {
            Some(way) => path matches Ok(path) && path@ == path_join(new_project_root@, way),
            None => path is Err,
        },
        new_project_root@ == parent_root(old_project_root@) ==> (path matches Ok(path) ==> path_eq(
            path@,
            old_manifest_dir@,
        )),
{
    let around: String = parent_or_root(old_project_root, parent(old_project_root));
    match strip_prefix(old_manifest_dir, around.as_str()) {
        Some(relative) => Ok(join(new_project_root, relative.as_str())),
        None => Err(Context::StripManifestPrefix),
    }
}

/// A manifest directory that has been moved with its project is moved back to
/// where it was: from any root around which the way to the moved directory is
/// the one by which it came there, into the directory around the old root.
pub proof fn moved_dir_moves_back(
    old_project_root: Seq<char>,
    old_manifest_dir: Seq<char>,
    new_project_root: Seq<char>,
    copied_root: Seq<char>,
)
    requires
        way_to(old_project_root, old_manifest_dir) is Some,
        path_eq(
            path_join(
                parent_root(old_project_root),
                way_to(old_project_root, old_manifest_dir)->Some_0,
            ),
            old_manifest_dir,
        ),
        way_to(
            copied_root,
            moved_dir(old_project_root, old_manifest_dir, new_project_root)->Some_0,
        ) == way_to(old_project_root, old_manifest_dir),
    ensures
        ({
            let moved = moved_dir(old_project_root, old_manifest_dir, new_project_root)->Some_0;
            let back = moved_dir(copied_root, moved, parent_root(old_project_root));
            back is Some && path_eq(back->Some_0, old_manifest_dir)
        }),
{
}

/// The path that the entry of a dependency gives, joined to the directory of
/// the manifest that the entry stands in.
pub open spec fn dependency_target(
    dependency: toml_edit::Item,
    dependency_package_dir: Seq<char>,
) -> Option<Seq<char>> {
    if table_texts(dependency).contains_key("path"@) {
        Some(path_join(dependency_package_dir, table_texts(dependency)["path"@]))
    } else {
        None
    }
}

/// Whether the absolute path of a dependency is the one of the package.
pub open spec fn refers_to(canonical: Option<Seq<char>>, package_dir: Seq<char>) -> bool {
    canonical is Some && path_eq(canonical->Some_0, package_dir)
}

/// The path of a dependency: the one that its entry in the manifest at
/// `dependency_package_dir` gives, joined to that directory. `None` if the entry
/// gives no path.
pub fn dependency_path(dependency: &toml_edit::Item, dependency_package_dir: &str) -> (path: Option<
    String,
>)
    ensures
        text_view(path) == dependency_target(*dependency, dependency_package_dir@),
        path is Some <==> table_texts(*dependency).contains_key("path"@),
        path matches Some(path) ==> path@ == path_join(
            dependency_package_dir@,
            table_texts(*dependency)["path"@],
        ),
{
    match table_text(dependency, "path") {
        Some(relative) => Some(join(dependency_package_dir, relative.as_str())),
        None => None,
    }
}

/// Whether a dependency refers to the package at `package_dir`, where
/// `canonical` is the absolute form of the path of the dependency, or `None` if
/// it has none.
pub fn is_dependency_referred_to_package(canonical: Option<&str>, package_dir: &str) -> (refers:
    bool)
    ensures
        refers == refers_to(
            match canonical {
                Some(canonical) => Some(canonical@),
                None => None,
            },
            package_dir@,
        ),
{
    match canonical {
        Some(canonical) => same_path(canonical, package_dir),
        None => false,
    }
}

/// The directory around the old root, at whatever depth it lies, is the one
/// directly above the root: what lies in there is found at the same way below
/// the new root, and what does not lie in there is not moved. The project itself
/// comes to its own name below the new root.
pub proof fn dir_keeps_its_way_below_the_parent(
    old_project_root: Seq<char>,
    old_manifest_dir: Seq<char>,
    new_project_root: Seq<char>,
    around: Seq<char>,
)
    requires
        path_parent(old_project_root) == Some(around),
    ensures
        path_strip_prefix(old_manifest_dir, around) matches Some(way) ==> moved_dir(
            old_project_root,
            old_manifest_dir,
            new_project_root,
        ) == Some(path_join(new_project_root, way)),
        path_strip_prefix(old_manifest_dir, around) is None ==> moved_dir(
            old_project_root,
            old_manifest_dir,
            new_project_root,
        ) is None,
        path_strip_prefix(old_project_root, around) matches Some(name) ==> moved_dir(
            old_project_root,
            old_project_root,
            new_project_root,
        ) == Some(path_join(new_project_root, name)),
{
}

/// A root that has nothing above it stands for the directory around itself.
pub proof fn dir_keeps_its_way_below_a_top(
    old_project_root: Seq<char>,
    old_manifest_dir: Seq<char>,
    new_project_root: Seq<char>,
)
    requires
        path_parent(old_project_root) is None,
    ensures
        path_strip_prefix(old_manifest_dir, old_project_root) matches Some(way) ==> moved_dir(
            old_project_root,
            old_manifest_dir,
            new_project_root,
        ) == Some(path_join(new_project_root, way)),
        path_strip_prefix(old_manifest_dir, old_project_root) is None ==> moved_dir(
            old_project_root,
            old_manifest_dir,
            new_project_root,
        ) is None,
{
}

/// Two projects in the same directory move a directory to the same place, and a
/// directory moves to the same way below whatever new root there is.
pub proof fn projects_side_by_side_move_alike(
    one_root: Seq<char>,
    other_root: Seq<char>,
    old_manifest_dir: Seq<char>,
    new_project_root: Seq<char>,
)
    requires
        path_parent(one_root) is Some,
        path_parent(one_root) == path_parent(other_root),
    ensures
        moved_dir(one_root, old_manifest_dir, new_project_root) == moved_dir(
            other_root,
            old_manifest_dir,
            new_project_root,
        ),
{
}

/// A text that is there is seen as it is.
pub proof fn text_is_seen_as_it_is(text: String, seen: Seq<char>)
    ensures
        text_view(Some(text)) == Some(seen) <==> text@ == seen,
        text_view(None) is None,
{
}

/// A dependency is where its entry says, seen from the manifest that has the
/// entry, and nowhere if the entry gives no path, whatever else it gives.
pub proof fn dependency_is_where_its_entry_says(
    dependency: toml_edit::Item,
    other: toml_edit::Item,
    dir: Seq<char>,
    path: Seq<char>,
)
    ensures
        table_texts(dependency).contains_pair("path"@, path) ==> dependency_target(dependency, dir)
            == Some(path_join(dir, path)),
        !table_texts(dependency).contains_key("path"@) ==> dependency_target(dependency, dir) is None,
        table_texts(dependency).contains_pair("path"@, path) && table_texts(other).contains_pair(
            "path"@,
            path,
        ) ==> dependency_target(dependency, dir) == dependency_target(other, dir),
{
}

/// A dependency refers to a package exactly if it has an absolute path and that
/// is the same path as the one of the package.
pub proof fn dependency_refers_to_the_package_at_its_path(path: Seq<char>, package_dir: Seq<char>)
    ensures
        refers_to(Some(path), package_dir) == path_eq(path, package_dir),
        !refers_to(None, package_dir),
{
}

} // verus!
