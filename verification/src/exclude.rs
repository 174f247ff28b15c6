//! The exclusion policy of a search through the whole file system.

use crate::path::{components, path_components, path_starts_with};
use crate::text::{
    chars_of, lowered, replace_char, replace_chars, same_text, string_of, to_lowercase, views,
};
use vstd::prelude::*;

verus! {

/// The platform families, which differ in their reserved directories and in
/// what separates the components of a path.
#[derive(Clone, Copy, Debug, PartialEq, Eq, Structural)]
pub enum PlatformFamily {
    Posix,
    Windows,
}

/// The names that exclude every path that has one of them as a component,
/// whatever the case of its letters.
pub open spec fn excluded_names() -> Seq<Seq<char>> {
    seq![".git"@, "node_modules"@, "venv"@, "__pycache__"@]
}

/// The directories that the operating system keeps for itself.
pub open spec fn reserved_directories(family: PlatformFamily) -> Seq<Seq<char>> {
    match family {
        PlatformFamily::Posix => seq![
            "/var"@,
            "/proc"@,
            "/run"@,
            "/sys"@,
            "/dev"@,
            "/lib"@,
            "/lib64"@,
            "/snap"@,
            "/boot"@,
        ],
        PlatformFamily::Windows => seq![
            "C:/Windows"@,
            "C:/Program Files"@,
            "C:/Program Files (x86)"@,
            "C:/ProgramData"@,
        ],
    }
}

/// A path with `/` between its components: on Windows each `\` counts as
/// one.
pub open spec fn portable(family: PlatformFamily, path: Seq<char>) -> Seq<char> {
    match family {
        PlatformFamily::Posix => path,
        PlatformFamily::Windows => replace_char(path, '\\', '/'),
    }
}

/// Whether a component is one of the excluded names once it is lower-cased.
pub open spec fn is_excluded_name(component: Seq<char>) -> bool {
    excluded_names().contains(lowered(component))
}

/// Whether some component of the path is an excluded name.
pub open spec fn has_excluded_component(path: Seq<char>) -> bool {
    exists|i: int|
        0 <= i < components(path).len() && is_excluded_name(#[trigger] components(path)[i])
}

/// Whether the path lies in a reserved directory.
pub open spec fn is_reserved(family: PlatformFamily, path: Seq<char>) -> bool {
    exists|j: int|
        0 <= j < reserved_directories(family).len() && path_starts_with(
            path,
            #[trigger] reserved_directories(family)[j],
        )
}

/// Whether a path is left out of the search. Nothing is left out unless the
/// whole file system is searched.
pub open spec fn is_excluded(scan_all: bool, family: PlatformFamily, path: Seq<char>) -> bool {
    scan_all && (has_excluded_component(portable(family, path)) || is_reserved(
        family,
        portable(family, path),
    ))
}

/// The views of a list of texts.
pub open spec fn name_views(list: Seq<&str>) -> Seq<Seq<char>> {
    list.map_values(|s: &str| s@)
}

/// The excluded names.
pub fn excluded_name_list() -> (names: Vec<&'static str>)
    ensures
        name_views(names@) == excluded_names(),
{
    let mut names: Vec<&'static str> = Vec::new();
    names.push(".git");
    names.push("node_modules");
    names.push("venv");
    names.push("__pycache__");
    assert(name_views(names@) =~= excluded_names());
    names
}

/// The reserved directories of a platform family.
pub fn reserved_directory_list(family: PlatformFamily) -> (dirs: Vec<&'static str>)
    ensures
        name_views(dirs@) == reserved_directories(family),
{
    let mut dirs: Vec<&'static str> = Vec::new();
    match family {
        PlatformFamily::Posix => {
            dirs.push("/var");
            dirs.push("/proc");
            dirs.push("/run");
            dirs.push("/sys");
            dirs.push("/dev");
            dirs.push("/lib");
            dirs.push("/lib64");
            dirs.push("/snap");
            dirs.push("/boot");
        },
        PlatformFamily::Windows => {
            dirs.push("C:/Windows");
            dirs.push("C:/Program Files");
            dirs.push("C:/Program Files (x86)");
            dirs.push("C:/ProgramData");
        },
    }
    assert(name_views(dirs@) =~= reserved_directories(family));
    dirs
}

/// Whether `text` is one of `list`.
pub fn is_one_of(list: &[&str], text: &str) -> (found: bool)
    ensures
        found == name_views(list@).contains(text@),
{
    let mut i: usize = 0;
    while i < list.len()
        invariant
            0 <= i <= list.len(),
            forall|k: int| 0 <= k < i ==> name_views(list@)[k] != text@,
        decreases list.len() - i,
    {
        if same_text(list[i], text) {
            assert(name_views(list@)[i as int] == text@);
            return true;
        }
        i += 1;
    }
    false
}

/// Whether the components `parts` begin with the components of `base`.
pub fn begins_with(parts: &[String], base: &str) -> (hit: bool)
    ensures
        hit == components(base@).is_prefix_of(views(parts@)),
{
    let base_parts = path_components(base);
    if base_parts.len() > parts.len() {
        return false;
    }
    let mut i: usize = 0;
    while i < base_parts.len()
        invariant
            0 <= i <= base_parts.len() <= parts.len(),
            views(base_parts@) == components(base@),
            forall|k: int| 0 <= k < i ==> views(base_parts@)[k] == views(parts@)[k],
        decreases base_parts.len() - i,
    {
        if !same_text(base_parts[i].as_str(), parts[i].as_str()) {
            assert(views(base_parts@)[i as int] != views(parts@)[i as int]);
            assert(views(parts@).subrange(0, base_parts.len() as int)[i as int] == views(
                parts@,
            )[i as int]);
            return false;
        }
        i += 1;
    }
    assert(views(base_parts@) =~= views(parts@).subrange(0, base_parts.len() as int));
    true
}

/// A path with `/` between its components.
pub fn to_portable(family: PlatformFamily, path: &str) -> (out: String)
    ensures
        out@ == portable(family, path@),
{
    match family {
        PlatformFamily::Posix => path.to_owned(),
        PlatformFamily::Windows => {
            let p = chars_of(path);
            let replaced = replace_chars(p.as_slice(), '\\', '/');
            string_of(replaced.as_slice())
        },
    }
}

/// Whether a path is left out of the search.
pub fn excluded(scan_all: bool, family: PlatformFamily, path: &str) -> (out: bool)
    ensures
        out == is_excluded(scan_all, family, path@),
{
    if !scan_all {
        return false;
    }
    let p = to_portable(family, path);
    let parts = path_components(p.as_str());
    let names = excluded_name_list();
    let mut i: usize = 0;
    while i < parts.len()
        invariant
            0 <= i <= parts.len(),
            scan_all,
            p@ == portable(family, path@),
            views(parts@) == components(p@),
            name_views(names@) == excluded_names(),
            forall|k: int| 0 <= k < i ==> !is_excluded_name(#[trigger] components(p@)[k]),
        decreases parts.len() - i,
    {
        let lower = to_lowercase(parts[i].as_str());
        assert(views(parts@)[i as int] == parts@[i as int]@);
        if is_one_of(names.as_slice(), lower.as_str()) {
            assert(is_excluded_name(components(p@)[i as int]));
            return true;
        }
        i += 1;
    }
    let dirs = reserved_directory_list(family);
    let mut j: usize = 0;
    while j < dirs.len()
        invariant
            0 <= j <= dirs.len(),
            scan_all,
            p@ == portable(family, path@),
            views(parts@) == components(p@),
            name_views(dirs@) == reserved_directories(family),
            !has_excluded_component(p@),
            forall|k: int|
                0 <= k < j ==> !path_starts_with(p@, #[trigger] reserved_directories(family)[k]),
        decreases dirs.len() - j,
    {
        assert(name_views(dirs@)[j as int] == dirs@[j as int]@);
        if begins_with(parts.as_slice(), dirs[j]) {
            assert(path_starts_with(p@, reserved_directories(family)[j as int]));
            return true;
        }
        j += 1;
    }
    false
}

} // verus!
