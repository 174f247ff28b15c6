//! The candidate directories of a search.

use crate::exclude::PlatformFamily;
use crate::path::{components, join_path, joined, path_components, same_path};
use crate::text::{split, split_chars, chars_of, same_text, trim, trimmed, views};
use vstd::prelude::*;

verus! {

/// Where the curated search looks, as far as it depends on the machine and
/// on the user.
#[derive(Debug, Clone, PartialEq, Eq)]
pub struct SearchPlaces {
    /// The extra paths that the user configured.
    pub extra_paths: Vec<String>,
    /// The home directory of the user, where there is one.
    pub home_dir: Option<String>,
    /// The cache directory of the user, where there is one.
    pub cache_dir: Option<String>,
    /// The directory that the hub was told to use, where it was told.
    pub hf_home: Option<String>,
    /// Whether the store of Ollama below the home directory is searched.
    pub ollama_store: bool,
    /// Whether the store of LM Studio below the cache directory is searched.
    pub lm_studio_store: bool,
}

/// The extra paths that the user configured in one text: its pieces
/// between commas. Without such a text there is none.
pub open spec fn configured_paths(value: Option<Seq<char>>) -> Seq<Seq<char>> {
    match value {
        Some(text) => split(text, ','),
        None => Seq::empty(),
    }
}

/// Reads the extra paths out of the text that configures them.
pub fn parse_model_paths(value: Option<&str>) -> (paths: Vec<String>)
    ensures
        views(paths@) == configured_paths(
            match value {
                Some(text) => Some(text@),
                None => None,
            },
        ),
{
    match value {
        Some(text) => {
            let t = chars_of(text);
            split_chars(t.as_slice(), ',')
        },
        None => {
            let paths: Vec<String> = Vec::new();
            assert(views(paths@) =~= Seq::<Seq<char>>::empty());
            paths
        },
    }
}

/// The extra paths without the white space around them, those that are
/// empty then left out.
pub open spec fn extra_places(extra: Seq<Seq<char>>) -> Seq<Seq<char>>
    decreases extra.len(),
{
    if extra.len() == 0 {
        Seq::empty()
    } else {
        let before = extra_places(extra.drop_last());
        if trimmed(extra.last()).len() == 0 {
            before
        } else {
            before.push(trimmed(extra.last()))
        }
    }
}

/// The places below the home directory.
pub open spec fn home_places(home: Option<Seq<char>>, ollama_store: bool) -> Seq<Seq<char>> {
    match home {
        Some(home) => {
            let always = seq![
                joined(home, "Downloads"@),
                joined(joined(home, "Documents"@), "models"@),
                joined(joined(home, "jan"@), "models"@),
            ];
            if ollama_store {
                always.push(joined(joined(home, ".ollama"@), "models"@))
            } else {
                always
            }
        },
        None => Seq::empty(),
    }
}

/// The directory of the hub: the one it was told to use, else
/// `huggingface` below the cache directory.
pub open spec fn hub_home(cache: Seq<char>, hf_home: Option<Seq<char>>) -> Seq<char> {
    match hf_home {
        Some(dir) => dir,
        None => joined(cache, "huggingface"@),
    }
}

/// The places below the cache directory. Without a cache directory there is
/// none, whatever the hub was told.
pub open spec fn cache_places(
    cache: Option<Seq<char>>,
    hf_home: Option<Seq<char>>,
    lm_studio_store: bool,
) -> Seq<Seq<char>> {
    match cache {
        Some(cache) => {
            let hub = joined(hub_home(cache, hf_home), "hub"@);
            if lm_studio_store {
                seq![joined(joined(cache, "lm-studio"@), "models"@), hub]
            } else {
                seq![hub]
            }
        },
        None => Seq::empty(),
    }
}

/// The view of an optional text.
pub open spec fn place_view(place: Option<String>) -> Option<Seq<char>> {
    match place {
        Some(p) => Some(p@),
        None => None,
    }
}

/// Every place of the curated search, in order: the extra paths, `./models`,
/// the places below the home directory, the places below the cache
/// directory.
pub open spec fn candidates(places: SearchPlaces) -> Seq<Seq<char>> {
    extra_places(views(places.extra_paths@)) + seq!["./models"@] + home_places(
        place_view(places.home_dir),
        places.ollama_store,
    ) + cache_places(
        place_view(places.cache_dir),
        place_view(places.hf_home),
        places.lm_studio_store,
    )
}

/// Whether `path` has the same components as one of `kept`.
pub open spec fn is_kept(kept: Seq<Seq<char>>, path: Seq<char>) -> bool {
    exists|i: int| 0 <= i < kept.len() && same_path(#[trigger] kept[i], path)
}

/// The paths without repetitions: of paths with the same components the
/// first one stays, and what stays keeps its order.
pub open spec fn distinct_paths(paths: Seq<Seq<char>>) -> Seq<Seq<char>>
    decreases paths.len(),
{
    if paths.len() == 0 {
        Seq::empty()
    } else {
        let before = distinct_paths(paths.drop_last());
        if is_kept(before, paths.last()) {
            before
        } else {
            before.push(paths.last())
        }
    }
}

/// In `distinct_paths` no two paths have the same components, and every
/// path of the input has its components there.
pub proof fn lemma_distinct_paths(paths: Seq<Seq<char>>)
    ensures
        forall|i: int, j: int|
            0 <= i < j < distinct_paths(paths).len() ==> !same_path(
                #[trigger] distinct_paths(paths)[i],
                #[trigger] distinct_paths(paths)[j],
            ),
        forall|k: int| 0 <= k < paths.len() ==> is_kept(distinct_paths(paths), #[trigger] paths[k]),
    decreases paths.len(),
{
    if paths.len() > 0 {
        let before = distinct_paths(paths.drop_last());
        let out = distinct_paths(paths);
        lemma_distinct_paths(paths.drop_last());
        assert forall|k: int| 0 <= k < paths.len() implies is_kept(out, #[trigger] paths[k]) by {
            if k < paths.len() - 1 {
                assert(paths.drop_last()[k] == paths[k]);
                assert(is_kept(before, paths.drop_last()[k]));
                let w = choose|i: int|
                    0 <= i < before.len() && same_path(#[trigger] before[i], paths[k]);
                assert(out[w] == before[w]);
            } else if is_kept(before, paths.last()) {
            } else {
                assert(out[out.len() - 1] == paths.last());
                assert(same_path(out[out.len() - 1], paths[k]));
            }
        }
        assert forall|i: int, j: int| 0 <= i < j < out.len() implies !same_path(
            #[trigger] out[i],
            #[trigger] out[j],
        ) by {
            if j < before.len() {
                assert(out[i] == before[i] && out[j] == before[j]);
            } else {
                assert(out[i] == before[i]);
            }
        }
    }
}

/// The roots of the drives that Windows can name, `A` first.
pub open spec fn drive_roots() -> Seq<Seq<char>> {
    Seq::new(26, |i: int| seq![(('A' as u8) + i) as u8 as char, ':', '\\'])
}

/// Where the search begins: in the curated places without repetitions, or,
/// for the whole file system, at its root or at the root of every drive.
/// Places that are not there are still to be left out.
pub open spec fn search_paths(scan_all: bool, family: PlatformFamily, places: SearchPlaces) -> Seq<
    Seq<char>,
> {
    if scan_all {
        match family {
            PlatformFamily::Posix => seq![seq!['/']],
            PlatformFamily::Windows => drive_roots(),
        }
    } else {
        distinct_paths(candidates(places))
    }
}

/// Whether two lists of components are the same.
pub fn same_components(a: &[String], b: &[String]) -> (same: bool)
    ensures
        same == (views(a@) == views(b@)),
{
    if a.len() != b.len() {
        assert(views(a@).len() != views(b@).len());
        return false;
    }
    let mut i: usize = 0;
    while i < a.len()
        invariant
            0 <= i <= a.len(),
            a.len() == b.len(),
            forall|k: int| 0 <= k < i ==> views(a@)[k] == views(b@)[k],
        decreases a.len() - i,
    {
        if !same_text(a[i].as_str(), b[i].as_str()) {
            assert(views(a@)[i as int] != views(b@)[i as int]);
            return false;
        }
        i += 1;
    }
    assert(views(a@) =~= views(b@));
    true
}

/// The paths without repetitions.
pub fn distinct(paths: Vec<String>) -> (kept: Vec<String>)
    ensures
        views(kept@) == distinct_paths(views(paths@)),
{
    let mut kept: Vec<String> = Vec::new();
    let mut kept_parts: Vec<Vec<String>> = Vec::new();
    let ghost all = views(paths@);
    assert(views(kept@) =~= Seq::<Seq<char>>::empty());
    for path in it: paths
        invariant
            all == views(it.seq()),
            views(kept@) == distinct_paths(all.take(it.index() as int)),
            kept_parts@.len() == kept@.len(),
            forall|k: int|
                0 <= k < kept@.len() ==> views(#[trigger] kept_parts@[k]@) == components(
                    kept@[k]@,
                ),
    {
        proof {
            let done = all.take(it.index() as int);
            let next = all.take(it.index() + 1);
            assert(next.drop_last() =~= done);
            assert(next.last() == path@);
        }
        let parts = path_components(path.as_str());
        let mut seen = false;
        let mut k: usize = 0;
        while k < kept_parts.len()
            invariant
                0 <= k <= kept_parts.len(),
                kept_parts@.len() == kept@.len(),
                views(parts@) == components(path@),
                forall|j: int|
                    0 <= j < kept@.len() ==> views(#[trigger] kept_parts@[j]@) == components(
                        kept@[j]@,
                    ),
                seen ==> is_kept(views(kept@), path@),
                !seen ==> forall|j: int|
                    0 <= j < k ==> !same_path(#[trigger] views(kept@)[j], path@),
            decreases kept_parts.len() - k,
        {
            assert(views(kept@)[k as int] == kept@[k as int]@);
            if !seen && same_components(kept_parts[k].as_slice(), parts.as_slice()) {
                assert(same_path(views(kept@)[k as int], path@));
                seen = true;
            }
            k += 1;
        }
        if !seen {
            let ghost before = views(kept@);
            assert(!is_kept(before, path@));
            kept.push(path);
            kept_parts.push(parts);
            assert(views(kept@) =~= before.push(path@));
        }
    }
    assert(all.take(all.len() as int) =~= all);
    kept
}

/// Adds one place at the end of the list.
pub fn push_place(list: &mut Vec<String>, place: String)
    ensures
        views(final(list)@) == views(old(list)@).push(place@),
{
    list.push(place);
    assert(views(list@) =~= views(old(list)@).push(place@));
}

/// Every place of the curated search, in order.
pub fn candidate_places(places: &SearchPlaces) -> (list: Vec<String>)
    ensures
        views(list@) == candidates(*places),
{
    let mut list: Vec<String> = Vec::new();
    let mut i: usize = 0;
    assert(views(places.extra_paths@).take(0) =~= Seq::<Seq<char>>::empty());
    assert(views(list@) =~= Seq::<Seq<char>>::empty());
    while i < places.extra_paths.len()
        invariant
            0 <= i <= places.extra_paths.len(),
            views(list@) == extra_places(views(places.extra_paths@).take(i as int)),
        decreases places.extra_paths.len() - i,
    {
        proof {
            let done = views(places.extra_paths@).take(i as int);
            let next = views(places.extra_paths@).take(i + 1);
            assert(next.drop_last() =~= done);
            assert(next.last() == places.extra_paths@[i as int]@);
        }
        let inner = trim(places.extra_paths[i].as_str());
        if inner.as_str().unicode_len() > 0 {
            push_place(&mut list, inner);
        }
        i += 1;
    }
    assert(views(places.extra_paths@).take(places.extra_paths.len() as int) =~= views(
        places.extra_paths@,
    ));
    let ghost extras = views(list@);
    push_place(&mut list, "./models".to_owned());
    match &places.home_dir {
        Some(home) => {
            let home = home.as_str();
            push_place(&mut list, join_path(home, "Downloads"));
            push_place(&mut list, join_path(join_path(home, "Documents").as_str(), "models"));
            push_place(&mut list, join_path(join_path(home, "jan").as_str(), "models"));
            if places.ollama_store {
                push_place(&mut list, join_path(join_path(home, ".ollama").as_str(), "models"));
            }
        },
        None => {},
    }
    assert(views(list@) =~= extras + seq!["./models"@] + home_places(
        place_view(places.home_dir),
        places.ollama_store,
    ));
    let ghost homes = views(list@);
    match &places.cache_dir {
        Some(cache) => {
            let cache = cache.as_str();
            if places.lm_studio_store {
                push_place(&mut list, join_path(join_path(cache, "lm-studio").as_str(), "models"));
            }
            let hub_home = match &places.hf_home {
                Some(dir) => dir.clone(),
                None => join_path(cache, "huggingface"),
            };
            push_place(&mut list, join_path(hub_home.as_str(), "hub"));
        },
        None => {},
    }
    assert(views(list@) =~= homes + cache_places(
        place_view(places.cache_dir),
        place_view(places.hf_home),
        places.lm_studio_store,
    ));
    list
}

/// The root of every drive that Windows can name.
pub fn drive_root_list() -> (roots: Vec<String>)
    ensures
        views(roots@) == drive_roots(),
{
    let mut roots: Vec<String> = Vec::new();
    let mut i: u8 = 0;
    while i < 26
        invariant
            0 <= i <= 26,
            roots@.len() == i,
            forall|k: int| 0 <= k < i ==> #[trigger] roots@[k]@ == drive_roots()[k],
        decreases 26 - i,
    {
        let mut root = String::new();
        root.push((65u8 + i) as char);
        root.push(':');
        root.push('\\');
        assert(root@ =~= drive_roots()[i as int]);
        roots.push(root);
        i += 1;
    }
    assert(views(roots@) =~= drive_roots());
    roots
}

/// The paths of `paths` that `on_disk` flags, in their order: the path at a
/// position stays where the flag at that position is set, and goes where
/// it is not set or there is none.
pub open spec fn flagged(paths: Seq<Seq<char>>, on_disk: Seq<bool>) -> Seq<Seq<char>>
    decreases paths.len(),
{
    if paths.len() == 0 {
        Seq::empty()
    } else {
        let before = flagged(paths.drop_last(), on_disk);
        if paths.len() <= on_disk.len() && on_disk[paths.len() - 1] {
            before.push(paths.last())
        } else {
            before
        }
    }
}

/// What is kept are the paths whose flag is set, and all of them.
pub proof fn lemma_flagged(paths: Seq<Seq<char>>, on_disk: Seq<bool>)
    ensures
        forall|path: Seq<char>| #[trigger]
            flagged(paths, on_disk).contains(path) <==> exists|i: int|
                0 <= i < paths.len() && i < on_disk.len() && on_disk[i] && #[trigger] paths[i]
                    == path,
    decreases paths.len(),
{
    if paths.len() > 0 {
        let before = paths.drop_last();
        let last = paths.len() - 1;
        lemma_flagged(before, on_disk);
        assert forall|path: Seq<char>| #[trigger]
            flagged(paths, on_disk).contains(path) <==> exists|i: int|
                0 <= i < paths.len() && i < on_disk.len() && on_disk[i] && #[trigger] paths[i]
                    == path by {
            let kept = flagged(paths, on_disk);
            if kept.contains(path) {
                let k = choose|k: int| 0 <= k < kept.len() && kept[k] == path;
                if k < flagged(before, on_disk).len() {
                    assert(flagged(before, on_disk)[k] == path);
                    assert(flagged(before, on_disk).contains(path));
                    let i = choose|i: int|
                        0 <= i < before.len() && i < on_disk.len() && on_disk[i]
                            && #[trigger] before[i] == path;
                    assert(paths[i] == path);
                } else {
                    assert(paths[last] == path);
                }
            }
            if exists|i: int|
                0 <= i < paths.len() && i < on_disk.len() && on_disk[i] && #[trigger] paths[i]
                    == path {
                let i = choose|i: int|
                    0 <= i < paths.len() && i < on_disk.len() && on_disk[i]
                        && #[trigger] paths[i] == path;
                if i < last {
                    assert(before[i] == path);
                    assert(flagged(before, on_disk).contains(path));
                    let k = choose|k: int|
                        0 <= k < flagged(before, on_disk).len() && flagged(before, on_disk)[k]
                            == path;
                    assert(kept[k] == path);
                } else {
                    assert(kept[kept.len() - 1] == path);
                }
            }
        }
    }
}

/// Of paths no two of which are the same path, no two that are kept are
/// the same path.
pub proof fn lemma_flagged_distinct(paths: Seq<Seq<char>>, on_disk: Seq<bool>)
    requires
        forall|i: int, j: int|
            0 <= i < j < paths.len() ==> !same_path(#[trigger] paths[i], #[trigger] paths[j]),
    ensures
        forall|i: int, j: int|
            0 <= i < j < flagged(paths, on_disk).len() ==> !same_path(
                #[trigger] flagged(paths, on_disk)[i],
                #[trigger] flagged(paths, on_disk)[j],
            ),
    decreases paths.len(),
{
    if paths.len() > 0 {
        let before = paths.drop_last();
        let kept_before = flagged(before, on_disk);
        let kept = flagged(paths, on_disk);
        assert forall|i: int, j: int| 0 <= i < j < before.len() implies !same_path(
            #[trigger] before[i],
            #[trigger] before[j],
        ) by {
            assert(!same_path(paths[i], paths[j]));
        }
        lemma_flagged_distinct(before, on_disk);
        lemma_flagged(before, on_disk);
        assert forall|i: int, j: int| 0 <= i < j < kept.len() implies !same_path(
            #[trigger] kept[i],
            #[trigger] kept[j],
        ) by {
            if j < kept_before.len() {
                assert(kept[i] == kept_before[i] && kept[j] == kept_before[j]);
            } else {
                assert(kept[i] == kept_before[i]);
                assert(kept_before.contains(kept[i]));
                let k = choose|k: int|
                    0 <= k < before.len() && k < on_disk.len() && on_disk[k]
                        && #[trigger] before[k] == kept[i];
                assert(!same_path(paths[k], paths[paths.len() - 1]));
            }
        }
    }
}

/// Of the curated places, those that are on disk are places of the search,
/// and no two of them are the same path.
pub proof fn lemma_existing_places(family: PlatformFamily, places: SearchPlaces, on_disk: Seq<bool>)
    ensures
        forall|path: Seq<char>| #[trigger]
            flagged(search_paths(false, family, places), on_disk).contains(path)
                ==> search_paths(false, family, places).contains(path),
        forall|i: int, j: int|
            0 <= i < j < flagged(search_paths(false, family, places), on_disk).len()
                ==> !same_path(
                #[trigger] flagged(search_paths(false, family, places), on_disk)[i],
                #[trigger] flagged(search_paths(false, family, places), on_disk)[j],
            ),
{
    let all = search_paths(false, family, places);
    lemma_distinct_paths(candidates(places));
    lemma_flagged(all, on_disk);
    lemma_flagged_distinct(all, on_disk);
}

/// Keeps the candidates that are on disk: `on_disk` says of each path, by
/// its position, whether a directory stands there.
pub fn existing(paths: Vec<String>, on_disk: &[bool]) -> (kept: Vec<String>)
    ensures
        views(kept@) == flagged(views(paths@), on_disk@),
{
    let mut kept: Vec<String> = Vec::new();
    let mut at: usize = 0;
    let total = paths.len();
    let ghost all = views(paths@);
    assert(all.take(0) =~= Seq::<Seq<char>>::empty());
    for path in it: paths
        invariant
            all == views(it.seq()),
            at == it.index(),
            all.len() == total,
            views(kept@) == flagged(all.take(it.index() as int), on_disk@),
    {
        assert(at < all.len());
        proof {
            let next = all.take(at + 1);
            assert(next.drop_last() =~= all.take(at as int));
            assert(next.last() == path@);
            assert(views(kept@.push(path)) =~= views(kept@).push(path@));
        }
        if at < on_disk.len() && on_disk[at] {
            kept.push(path);
        }
        at += 1;
    }
    assert(all.take(all.len() as int) =~= all);
    kept
}

/// Where the search begins.
pub fn search_roots(scan_all: bool, family: PlatformFamily, places: &SearchPlaces) -> (roots: Vec<
    String,
>)
    ensures
        views(roots@) == search_paths(scan_all, family, *places),
{
    if scan_all {
        match family {
            PlatformFamily::Posix => {
                let mut roots: Vec<String> = Vec::new();
                let mut root = String::new();
                root.push('/');
                roots.push(root);
                assert(views(roots@) =~= seq![seq!['/']]);
                roots
            },
            PlatformFamily::Windows => drive_root_list(),
        }
    } else {
        distinct(candidate_places(places))
    }
}

} // verus!
