//! The features of a directory: names and paths that tell one on-disk
//! layout from another.

use crate::pattern::{accepts, compile, glob_compiles, glob_matches};
use crate::text::{chars_of, contains_char, same_text, views};
use vstd::prelude::*;

verus! {

/// Whether some existing path matched a pattern that was run against the
/// file system.
#[derive(Debug, Clone, PartialEq, Eq)]
pub struct GlobAnswer {
    pub pattern: String,
    pub found: bool,
}

/// What was found out about a directory.
#[derive(Debug, Clone, PartialEq, Eq)]
pub struct DirectoryProbe {
    /// Whether the path exists and is a directory.
    pub is_dir: bool,
    /// The names of its entries.
    pub names: Vec<String>,
    /// The answers to the patterns of its path features.
    pub globs: Vec<GlobAnswer>,
}

/// Whether a character separates the components of a path.
pub open spec fn is_separator(c: char) -> bool {
    c == '/' || c == '\\'
}

/// Whether a feature is a path: it holds a separator.
pub open spec fn is_path_feature(feature: Seq<char>) -> bool {
    feature.contains('/') || feature.contains('\\')
}

/// Whether a name among `names` matches the pattern. A text that is no
/// pattern matches nothing.
pub open spec fn simple_feature_holds(names: Seq<Seq<char>>, pattern: Seq<char>) -> bool {
    glob_compiles(pattern) && exists|i: int|
        0 <= i < names.len() && #[trigger] glob_matches(pattern, names[i])
}

/// The pattern that a path feature is run with: the feature itself where it
/// begins with a separator, else the directory, a `/` unless the directory
/// ends with a separator, and the feature.
pub open spec fn path_pattern(dir: Seq<char>, feature: Seq<char>) -> Seq<char> {
    if feature.len() > 0 && is_separator(feature[0]) {
        feature
    } else if dir.len() > 0 && is_separator(dir.last()) {
        dir + feature
    } else {
        dir + seq!['/'] + feature
    }
}

/// The answer recorded for a pattern: that of the first record of it, and
/// no where there is no record.
pub open spec fn glob_answer(globs: Seq<GlobAnswer>, pattern: Seq<char>) -> bool
    decreases globs.len(),
{
    if globs.len() == 0 {
        false
    } else if globs[0].pattern@ == pattern {
        globs[0].found
    } else {
        glob_answer(globs.skip(1), pattern)
    }
}

/// Whether the directory has one feature.
pub open spec fn feature_holds(dir: Seq<char>, probe: DirectoryProbe, feature: Seq<char>) -> bool {
    if is_path_feature(feature) {
        glob_answer(probe.globs@, path_pattern(dir, feature))
    } else {
        simple_feature_holds(views(probe.names@), feature)
    }
}

/// The views of a list of texts.
pub open spec fn str_views(list: Seq<&str>) -> Seq<Seq<char>> {
    list.map_values(|s: &str| s@)
}

/// Whether the path is a directory that has every one of the features.
pub open spec fn has_features(
    dir: Seq<char>,
    probe: DirectoryProbe,
    features: Seq<Seq<char>>,
) -> bool {
    probe.is_dir && forall|i: int|
        0 <= i < features.len() ==> feature_holds(dir, probe, #[trigger] features[i])
}

/// Whether a name among `names` matches the pattern.
pub fn check_simple_feature(names: &[String], pattern: &str) -> (holds: bool)
    ensures
        holds == simple_feature_holds(views(names@), pattern@),
{
    let compiled = match compile(pattern) {
        Some(p) => p,
        None => {
            return false;
        },
    };
    let mut i: usize = 0;
    while i < names.len()
        invariant
            0 <= i <= names.len(),
            glob_compiles(pattern@),
            crate::pattern::pattern_source(compiled) == pattern@,
            forall|k: int| 0 <= k < i ==> !glob_matches(pattern@, #[trigger] views(names@)[k]),
        decreases names.len() - i,
    {
        if accepts(&compiled, names[i].as_str()) {
            assert(glob_matches(pattern@, views(names@)[i as int]));
            return true;
        }
        i += 1;
    }
    false
}

/// The pattern that a path feature is run with.
pub fn path_feature_pattern(dir: &str, feature: &str) -> (pattern: String)
    ensures
        pattern@ == path_pattern(dir@, feature@),
{
    let f = chars_of(feature);
    if f.len() > 0 && (f[0] == '/' || f[0] == '\\') {
        return feature.to_owned();
    }
    let d = chars_of(dir);
    let mut pattern = dir.to_owned();
    if !(d.len() > 0 && (d[d.len() - 1] == '/' || d[d.len() - 1] == '\\')) {
        pattern.push('/');
    }
    pattern.append(feature);
    pattern
}

/// The answer recorded for the pattern of a path feature.
pub fn check_path_feature(dir: &str, globs: &[GlobAnswer], feature: &str) -> (holds: bool)
    ensures
        holds == glob_answer(globs@, path_pattern(dir@, feature@)),
{
    let pattern = path_feature_pattern(dir, feature);
    let mut i: usize = 0;
    assert(globs@.skip(0) =~= globs@);
    while i < globs.len()
        invariant
            0 <= i <= globs.len(),
            pattern@ == path_pattern(dir@, feature@),
            glob_answer(globs@, pattern@) == glob_answer(globs@.skip(i as int), pattern@),
        decreases globs.len() - i,
    {
        let ghost rest = globs@.skip(i as int);
        assert(rest.len() > 0 && rest[0] == globs@[i as int]);
        assert(rest.skip(1) =~= globs@.skip(i + 1));
        if same_text(globs[i].pattern.as_str(), pattern.as_str()) {
            assert(glob_answer(rest, pattern@) == rest[0].found);
            return globs[i].found;
        }
        assert(glob_answer(rest, pattern@) == glob_answer(rest.skip(1), pattern@));
        i += 1;
    }
    false
}

/// Whether the directory has one feature.
pub fn check_single_feature(dir: &str, probe: &DirectoryProbe, feature: &str) -> (holds: bool)
    ensures
        holds == feature_holds(dir@, *probe, feature@),
{
    let f = chars_of(feature);
    if contains_char(f.as_slice(), '/') || contains_char(f.as_slice(), '\\') {
        check_path_feature(dir, probe.globs.as_slice(), feature)
    } else {
        check_simple_feature(probe.names.as_slice(), feature)
    }
}

/// Whether the path is a directory that has every one of the features.
pub fn directory_has_features(dir_path: &str, probe: &DirectoryProbe, features: &[&str]) -> (holds:
    bool)
    ensures
        holds == has_features(dir_path@, *probe, str_views(features@)),
{
    if !probe.is_dir {
        return false;
    }
    let mut i: usize = 0;
    while i < features.len()
        invariant
            0 <= i <= features.len(),
            forall|k: int|
                0 <= k < i ==> feature_holds(dir_path@, *probe, #[trigger] str_views(features@)[k]),
        decreases features.len() - i,
    {
        if !check_single_feature(dir_path, probe, features[i]) {
            assert(!feature_holds(dir_path@, *probe, str_views(features@)[i as int]));
            return false;
        }
        i += 1;
    }
    true
}

/// The patterns of the path features among `features`, in order: what has
/// to be run against the file system before the features can be checked.
pub open spec fn glob_patterns(dir: Seq<char>, features: Seq<Seq<char>>) -> Seq<Seq<char>>
    decreases features.len(),
{
    if features.len() == 0 {
        Seq::empty()
    } else {
        let before = glob_patterns(dir, features.drop_last());
        if is_path_feature(features.last()) {
            before.push(path_pattern(dir, features.last()))
        } else {
            before
        }
    }
}

/// The patterns that have to be run against the file system for the
/// features.
pub fn glob_requests(dir: &str, features: &[&str]) -> (patterns: Vec<String>)
    ensures
        views(patterns@) == glob_patterns(dir@, str_views(features@)),
{
    let mut patterns: Vec<String> = Vec::new();
    let mut i: usize = 0;
    assert(str_views(features@).take(0) =~= Seq::<Seq<char>>::empty());
    while i < features.len()
        invariant
            0 <= i <= features.len(),
            views(patterns@) == glob_patterns(dir@, str_views(features@).take(i as int)),
        decreases features.len() - i,
    {
        proof {
            let done = str_views(features@).take(i as int);
            let next = str_views(features@).take(i + 1);
            assert(next.drop_last() =~= done);
            assert(next.last() == features@[i as int]@);
        }
        let f = chars_of(features[i]);
        if contains_char(f.as_slice(), '/') || contains_char(f.as_slice(), '\\') {
            let pattern = path_feature_pattern(dir, features[i]);
            let ghost before = views(patterns@);
            patterns.push(pattern);
            assert(views(patterns@) =~= before.push(pattern@));
        }
        i += 1;
    }
    assert(str_views(features@).take(features.len() as int) =~= str_views(features@));
    patterns
}

/// The on-disk layouts that the discovery tells apart.
#[derive(Clone, Copy, Debug, PartialEq, Eq, Structural)]
pub enum Layout {
    /// Manifests that name content-addressed blobs.
    Ollama,
    /// A hub cache: one directory for each repository, with snapshots.
    HubCache,
    /// Anything else: model files somewhere below the directory.
    Plain,
}

/// The features of an Ollama store.
pub open spec fn ollama_features() -> Seq<Seq<char>> {
    seq!["manifests"@, "blobs"@, "blobs/sha256-*"@]
}

/// The features of a hub cache.
pub open spec fn hub_features() -> Seq<Seq<char>> {
    seq!["*/blobs"@, "*/refs"@, "*/snapshots"@]
}

/// The layout of a directory: that of an Ollama store where it has those
/// features, else that of a hub cache where it has those, else plain.
pub open spec fn layout_of(dir: Seq<char>, probe: DirectoryProbe) -> Layout {
    if has_features(dir, probe, ollama_features()) {
        Layout::Ollama
    } else if has_features(dir, probe, hub_features()) {
        Layout::HubCache
    } else {
        Layout::Plain
    }
}

/// The features of an Ollama store.
pub fn ollama_feature_list() -> (features: Vec<&'static str>)
    ensures
        str_views(features@) == ollama_features(),
{
    let mut features: Vec<&'static str> = Vec::new();
    features.push("manifests");
    features.push("blobs");
    features.push("blobs/sha256-*");
    assert(str_views(features@) =~= ollama_features());
    features
}

/// The features of a hub cache.
pub fn hub_feature_list() -> (features: Vec<&'static str>)
    ensures
        str_views(features@) == hub_features(),
{
    let mut features: Vec<&'static str> = Vec::new();
    features.push("*/blobs");
    features.push("*/refs");
    features.push("*/snapshots");
    assert(str_views(features@) =~= hub_features());
    features
}

/// Tells the layout of a directory from what was found out about it.
pub fn classify_directory(dir: &str, probe: &DirectoryProbe) -> (layout: Layout)
    ensures
        layout == layout_of(dir@, *probe),
{
    let ollama = ollama_feature_list();
    if directory_has_features(dir, probe, ollama.as_slice()) {
        return Layout::Ollama;
    }
    let hub = hub_feature_list();
    if directory_has_features(dir, probe, hub.as_slice()) {
        Layout::HubCache
    } else {
        Layout::Plain
    }
}

} // verus!
