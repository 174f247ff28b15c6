//! The discovery engine: it turns what was found on disk into the list of
//! model records, and finds a record by name.

use crate::exclude::{excluded, is_excluded, PlatformFamily};
use crate::features::{classify_directory, layout_of, DirectoryProbe, Layout};
use crate::hub::{discover_hf_models, hub_records, HubEntryScan};
use crate::model::{model_views, Model, ModelType, ModelView};
use crate::ollama::{discover_ollama_models, ollama_store_records, OllamaStore};
use crate::path::{file_stem, file_stem_of};
use crate::search::{existing, flagged, search_paths, search_roots, SearchPlaces};
use crate::sniff::{format_of, sniff_format, SIZE_FLOOR};
use crate::text::{chars_of, concat, same_text, views};
use vstd::prelude::*;

verus! {

/// What was found on disk for one file.
#[derive(Debug, Clone, PartialEq, Eq)]
pub struct FileScan {
    /// The path of the file.
    pub path: String,
    /// The size of the file, where its metadata could be read.
    pub size: Option<u64>,
    /// The leading bytes of the file, as far as they were read.
    pub head: Vec<u8>,
}

/// What was found below a directory, by its layout.
#[derive(Debug, Clone, PartialEq, Eq)]
pub enum Contents {
    Ollama(OllamaStore),
    HubCache(Vec<HubEntryScan>),
    Files(Vec<FileScan>),
}

/// What was found on disk for one candidate directory.
#[derive(Debug, Clone, PartialEq, Eq)]
pub struct DirectoryScan {
    /// The path of the directory.
    pub path: String,
    /// What was found out about the directory itself.
    pub probe: DirectoryProbe,
    /// What was found below it.
    pub contents: Contents,
}

/// No model of the given name is in the discovery list.
#[derive(Debug, Clone, PartialEq, Eq)]
pub struct ModelNotFound {
    pub name: String,
}

impl ModelNotFound {
    /// The message of the failure.
    pub fn message(&self) -> (text: String)
        ensures
            text@ == "Model "@ + self.name@ + " not found"@,
    {
        let mut text = concat("Model ", self.name.as_str());
        text.append(" not found");
        text
    }
}

/// The record of one file of a plain directory. There is none where the
/// file is excluded, where its size is not known or below fifty mebibytes,
/// where its leading bytes tell no format, or where its path names no
/// file. The record is named by the stem of the file, and its path is the
/// path of the file.
pub open spec fn file_record(scan_all: bool, family: PlatformFamily, file: FileScan) -> Option<
    ModelView,
> {
    if is_excluded(scan_all, family, file.path@) {
        None
    } else {
        match (file.size, format_of(file.head@), file_stem(file.path@)) {
            (Some(size), Some(format), Some(name)) => if size < SIZE_FLOOR {
                None
            } else {
                Some(ModelView { format, path: file.path@, name, size, template: None })
            },
            _ => None,
        }
    }
}

/// The records of the files that have one, in the order of the scans.
pub open spec fn file_records(
    scan_all: bool,
    family: PlatformFamily,
    files: Seq<FileScan>,
) -> Seq<ModelView>
    decreases files.len(),
{
    if files.len() == 0 {
        Seq::empty()
    } else {
        let before = file_records(scan_all, family, files.drop_last());
        match file_record(scan_all, family, files.last()) {
            Some(record) => before.push(record),
            None => before,
        }
    }
}

/// The records of one candidate directory: those of its layout. What was
/// scanned as another layout than the directory has yields nothing.
pub open spec fn directory_records(
    scan_all: bool,
    family: PlatformFamily,
    scan: DirectoryScan,
) -> Seq<ModelView> {
    match (layout_of(scan.path@, scan.probe), scan.contents) {
        (Layout::Ollama, Contents::Ollama(store)) => ollama_store_records(scan.path@, store),
        (Layout::HubCache, Contents::HubCache(entries)) => hub_records(scan.path@, entries@),
        (Layout::Plain, Contents::Files(files)) => file_records(scan_all, family, files@),
        _ => Seq::empty(),
    }
}

/// The records of all candidate directories, directory by directory.
pub open spec fn discovered(
    scan_all: bool,
    family: PlatformFamily,
    scans: Seq<DirectoryScan>,
) -> Seq<ModelView>
    decreases scans.len(),
{
    if scans.len() == 0 {
        Seq::empty()
    } else {
        discovered(scan_all, family, scans.drop_last()) + directory_records(
            scan_all,
            family,
            scans.last(),
        )
    }
}

/// The position of the first record of the given name, or the length of the
/// list if there is none.
pub open spec fn position_of(list: Seq<ModelView>, name: Seq<char>) -> int
    decreases list.len(),
{
    if list.len() == 0 {
        0
    } else if list[0].name == name {
        0
    } else {
        1 + position_of(list.skip(1), name)
    }
}

/// `position_of` is the least position of a record of that name.
pub proof fn lemma_position_of(list: Seq<ModelView>, name: Seq<char>)
    ensures
        0 <= position_of(list, name) <= list.len(),
        forall|k: int| 0 <= k < position_of(list, name) ==> list[k].name != name,
        position_of(list, name) < list.len() ==> list[position_of(list, name)].name == name,
    decreases list.len(),
{
    if list.len() > 0 && list[0].name != name {
        lemma_position_of(list.skip(1), name);
        assert forall|k: int| 0 <= k < position_of(list, name) implies list[k].name != name by {
            if k > 0 {
                assert(list.skip(1)[k - 1] == list[k]);
            }
        }
    }
}

/// The record of one file of a plain directory, if it has one.
pub fn file_model(scan_all: bool, family: PlatformFamily, file: &FileScan) -> (model: Option<Model>)
    ensures
        match model {
            Some(m) => file_record(scan_all, family, *file) == Some(m@),
            None => file_record(scan_all, family, *file) is None,
        },
{
    if excluded(scan_all, family, file.path.as_str()) {
        return None;
    }
    let size = match file.size {
        Some(size) => size,
        None => {
            return None;
        },
    };
    if size < SIZE_FLOOR {
        return None;
    }
    match (sniff_format(file.head.as_slice()), file_stem_of(file.path.as_str())) {
        (Some(format), Some(name)) => Some(
            Model { name, format, path: file.path.clone(), size, template: None },
        ),
        _ => None,
    }
}

/// Adds the models of a plain directory to the list.
pub fn discover_files(
    list: &mut Vec<Model>,
    scan_all: bool,
    family: PlatformFamily,
    files: &[FileScan],
)
    ensures
        model_views(final(list)@) == model_views(old(list)@) + file_records(
            scan_all,
            family,
            files@,
        ),
{
    let mut i: usize = 0;
    assert(files@.take(0) =~= Seq::<FileScan>::empty());
    assert(model_views(list@) + Seq::<ModelView>::empty() =~= model_views(list@));
    while i < files.len()
        invariant
            0 <= i <= files.len(),
            model_views(list@) == model_views(old(list)@) + file_records(
                scan_all,
                family,
                files@.take(i as int),
            ),
        decreases files.len() - i,
    {
        proof {
            let done = files@.take(i as int);
            let next = files@.take(i + 1);
            assert(next.drop_last() =~= done);
            assert(next.last() == files@[i as int]);
        }
        match file_model(scan_all, family, &files[i]) {
            Some(model) => {
                let ghost before = model_views(list@);
                list.push(model);
                assert(model_views(list@) =~= before.push(model@));
            },
            None => {},
        }
        i += 1;
    }
    assert(files@.take(files.len() as int) =~= files@);
}

/// Adds the models of one candidate directory to the list.
pub fn discover_directory(
    list: &mut Vec<Model>,
    scan_all: bool,
    family: PlatformFamily,
    scan: &DirectoryScan,
)
    ensures
        model_views(final(list)@) == model_views(old(list)@) + directory_records(
            scan_all,
            family,
            *scan,
        ),
{
    assert(model_views(list@) + Seq::<ModelView>::empty() =~= model_views(list@));
    let root = scan.path.as_str();
    match classify_directory(root, &scan.probe) {
        Layout::Ollama => match &scan.contents {
            Contents::Ollama(store) => discover_ollama_models(list, root, store),
            _ => {},
        },
        Layout::HubCache => match &scan.contents {
            Contents::HubCache(entries) => discover_hf_models(list, root, entries.as_slice()),
            _ => {},
        },
        Layout::Plain => match &scan.contents {
            Contents::Files(files) => {
                discover_files(list, scan_all, family, files.as_slice())
            },
            _ => {},
        },
    }
}

/// Whether a model is named by the path of its file: the name begins with
/// `.` or `/`.
pub open spec fn names_a_path(name: Seq<char>) -> bool {
    name.len() > 0 && (name[0] == '.' || name[0] == '/')
}

/// The discovery engine: the list of the models found by the last scan, and
/// how to search.
pub struct ModelDiscover {
    model_list: Vec<Model>,
    scan_all_paths: bool,
    family: PlatformFamily,
}

impl ModelDiscover {
    /// The discovery list.
    pub closed spec fn models(&self) -> Seq<Model> {
        self.model_list@
    }

    /// Whether the whole file system is searched.
    pub closed spec fn scans_all(&self) -> bool {
        self.scan_all_paths
    }

    /// The platform family whose rules the search follows.
    pub closed spec fn platform(&self) -> PlatformFamily {
        self.family
    }

    /// An engine with an empty list, which searches the curated places by
    /// the rules of POSIX.
    pub fn new() -> (engine: Self)
        ensures
            engine.models() == Seq::<Model>::empty(),
            !engine.scans_all(),
            engine.platform() == PlatformFamily::Posix,
    {
        ModelDiscover {
            model_list: Vec::new(),
            scan_all_paths: false,
            family: PlatformFamily::Posix,
        }
    }

    /// Chooses between the curated search and the search through the
    /// whole file system.
    pub fn scan_all_paths(&mut self, scan: bool)
        ensures
            final(self).scans_all() == scan,
            final(self).models() == old(self).models(),
            final(self).platform() == old(self).platform(),
    {
        self.scan_all_paths = scan;
    }

    /// Chooses the platform family whose rules the search follows.
    pub fn set_platform(&mut self, family: PlatformFamily)
        ensures
            final(self).platform() == family,
            final(self).models() == old(self).models(),
            final(self).scans_all() == old(self).scans_all(),
    {
        self.family = family;
    }

    /// Whether the whole file system is searched.
    pub fn is_scanning_all(&self) -> (all: bool)
        ensures
            all == self.scans_all(),
    {
        self.scan_all_paths
    }

    /// The platform family whose rules the search follows.
    pub fn platform_family(&self) -> (family: PlatformFamily)
        ensures
            family == self.platform(),
    {
        self.family
    }

    /// Whether a path is left out of the search.
    pub fn check_exclude(&self, path: &str) -> (out: bool)
        ensures
            out == is_excluded(self.scans_all(), self.platform(), path@),
    {
        excluded(self.scan_all_paths, self.family, path)
    }

    /// The directories where the search begins. Those that are not on disk
    /// are still among them.
    pub fn make_search_paths(&self, places: &SearchPlaces) -> (paths: Vec<String>)
        ensures
            views(paths@) == search_paths(self.scans_all(), self.platform(), *places),
    {
        search_roots(self.scan_all_paths, self.family, places)
    }

    /// The directories where the search begins that are on disk: `on_disk`
    /// says of each directory of `make_search_paths`, by its position,
    /// whether it is there.
    pub fn existing_search_paths(&self, places: &SearchPlaces, on_disk: &[bool]) -> (paths: Vec<
        String,
    >)
        ensures
            views(paths@) == flagged(
                search_paths(self.scans_all(), self.platform(), *places),
                on_disk@,
            ),
    {
        existing(self.make_search_paths(places), on_disk)
    }

    /// Replaces the list by the records of what was found on disk. Nothing
    /// of the old list stays.
    pub fn discover(&mut self, scans: &[DirectoryScan])
        ensures
            model_views(final(self).models()) == discovered(
                old(self).scans_all(),
                old(self).platform(),
                scans@,
            ),
            final(self).scans_all() == old(self).scans_all(),
            final(self).platform() == old(self).platform(),
    {
        let mut list: Vec<Model> = Vec::new();
        let mut i: usize = 0;
        assert(scans@.take(0) =~= Seq::<DirectoryScan>::empty());
        assert(model_views(list@) =~= Seq::<ModelView>::empty());
        while i < scans.len()
            invariant
                0 <= i <= scans.len(),
                model_views(list@) == discovered(
                    self.scan_all_paths,
                    self.family,
                    scans@.take(i as int),
                ),
            decreases scans.len() - i,
        {
            proof {
                let done = scans@.take(i as int);
                let next = scans@.take(i + 1);
                assert(next.drop_last() =~= done);
                assert(next.last() == scans@[i as int]);
            }
            discover_directory(&mut list, self.scan_all_paths, self.family, &scans[i]);
            i += 1;
        }
        assert(scans@.take(scans.len() as int) =~= scans@);
        self.model_list = list;
    }

    /// The discovery list.
    pub fn get_model_list(&self) -> (list: &Vec<Model>)
        ensures
            list@ == self.models(),
    {
        &self.model_list
    }

    /// The first record of the given name. It fails exactly where the list
    /// holds no record of that name.
    pub fn find_model(&self, model_name: &str) -> (found: Result<Model, ModelNotFound>)
        ensures
            match found {
                Ok(model) => {
                    &&& position_of(model_views(self.models()), model_name@) < self.models().len()
                    &&& model == self.models()[position_of(
                        model_views(self.models()),
                        model_name@,
                    )]
                },
                Err(error) => {
                    &&& position_of(model_views(self.models()), model_name@)
                        == self.models().len()
                    &&& error.name@ == model_name@
                },
            },
    {
        let mut i: usize = 0;
        let ghost all = model_views(self.model_list@);
        assert(all.skip(0) =~= all);
        while i < self.model_list.len()
            invariant
                0 <= i <= self.model_list.len(),
                all == model_views(self.model_list@),
                position_of(all, model_name@) == i + position_of(all.skip(i as int), model_name@),
            decreases self.model_list.len() - i,
        {
            let ghost rest = all.skip(i as int);
            assert(rest[0] == self.model_list@[i as int]@);
            assert(rest.skip(1) =~= all.skip(i + 1));
            if same_text(self.model_list[i].name.as_str(), model_name) {
                return Ok(self.model_list[i].clone());
            }
            i += 1;
        }
        Err(ModelNotFound { name: model_name.to_owned() })
    }

    /// The record that a request names: a name that begins with `.` or `/`
    /// is the path of a GGUF file, any other name is looked up in the list.
    pub fn resolve(&self, model: &String) -> (found: Result<Model, ModelNotFound>)
        ensures
            if names_a_path(model@) {
                found matches Ok(m) && m@ == (ModelView {
                    format: ModelType::Gguf,
                    path: model@,
                    name: model@,
                    size: 0,
                    template: None,
                })
            } else {
                match found {
                    Ok(m) => {
                        &&& position_of(model_views(self.models()), model@) < self.models().len()
                        &&& m == self.models()[position_of(model_views(self.models()), model@)]
                    },
                    Err(error) => {
                        &&& position_of(model_views(self.models()), model@)
                            == self.models().len()
                        &&& error.name@ == model@
                    },
                }
            },
    {
        let name = chars_of(model.as_str());
        if name.len() > 0 && (name[0] == '.' || name[0] == '/') {
            Ok(Model::from_path(model))
        } else {
            self.find_model(model.as_str())
        }
    }
}

/// Two scans of the same findings give the same records, whatever the list
/// held before: the list depends on nothing but what was found on disk and
/// on how the engine searches.
pub proof fn lemma_discover_is_idempotent(
    first: ModelDiscover,
    second: ModelDiscover,
    scans: Seq<DirectoryScan>,
)
    requires
        model_views(first.models()) == discovered(first.scans_all(), first.platform(), scans),
        model_views(second.models()) == discovered(second.scans_all(), second.platform(), scans),
        first.scans_all() == second.scans_all(),
        first.platform() == second.platform(),
    ensures
        model_views(first.models()) == model_views(second.models()),
{
}

} // verus!
