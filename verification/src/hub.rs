//! The hub cache: one directory for each repository, with snapshots of its
//! files.

use crate::features::{
    directory_has_features, feature_holds, glob_answer, has_features, is_path_feature,
    path_pattern, str_views, DirectoryProbe,
};
use crate::json::{json_document, json_member, member, member_text, parse, text_of_member};
use crate::model::{model_views, text_view, Model, ModelType, ModelView};
use crate::path::{join_path, joined};
use crate::sniff::SIZE_FLOOR;
use crate::template::{get_default_template, GO_DEFAULT_TEMPLATE};
use crate::text::{chars_of, has_prefix, occurs_at, string_of};
use vstd::prelude::*;
use vstd::slice::slice_subrange;

verus! {

/// What the name of a repository's directory begins with.
pub const HUB_PREFIX: &'static str = "models--";

/// The directory of the snapshots, below the directory of a repository.
pub const SNAPSHOTS_DIR: &'static str = "snapshots";

/// `s` with every `--`, read from the left, replaced by `/`.
pub open spec fn slashed(s: Seq<char>) -> Seq<char>
    decreases s.len(),
{
    if s.len() >= 2 && s[0] == '-' && s[1] == '-' {
        seq!['/'] + slashed(s.skip(2))
    } else if s.len() == 0 {
        Seq::empty()
    } else {
        seq![s[0]] + slashed(s.skip(1))
    }
}

/// The name of the repository kept in a directory of the given name: what
/// follows the prefix, with `/` for each `--`; owner and repository come
/// out with a `/` between them. A directory without the prefix keeps none.
pub open spec fn repository_name(file_name: Seq<char>) -> Option<Seq<char>> {
    if occurs_at(file_name, HUB_PREFIX@, 0) {
        Some(slashed(file_name.skip(HUB_PREFIX@.len() as int)))
    } else {
        None
    }
}

/// Replaces every `--`, read from the left, by `/`.
pub fn slash_pairs(s: &[char]) -> (out: Vec<char>)
    ensures
        out@ == slashed(s@),
{
    let mut out: Vec<char> = Vec::new();
    let mut i: usize = 0;
    assert(s@.skip(0) =~= s@);
    while i < s.len()
        invariant
            0 <= i <= s.len(),
            out@ + slashed(s@.skip(i as int)) == slashed(s@),
        decreases s.len() - i,
    {
        let ghost rest = s@.skip(i as int);
        assert(rest[0] == s@[i as int]);
        if s[i] == '-' && i + 1 < s.len() && s[i + 1] == '-' {
            assert(rest[1] == s@[i + 1]);
            assert(rest.skip(2) =~= s@.skip(i + 2));
            let ghost before = out@;
            out.push('/');
            assert(out@ + slashed(s@.skip(i + 2)) =~= before + slashed(rest));
            i += 2;
        } else {
            assert(rest.skip(1) =~= s@.skip(i + 1));
            let ghost before = out@;
            out.push(s[i]);
            assert(out@ + slashed(s@.skip(i + 1)) =~= before + slashed(rest));
            i += 1;
        }
    }
    assert(out@ + slashed(s@.skip(s.len() as int)) =~= out@);
    out
}

/// The name of the repository kept in a directory of the given name.
pub fn name_of_repository(file_name: &str) -> (name: Option<String>)
    ensures
        text_view(name) == repository_name(file_name@),
{
    let f = chars_of(file_name);
    let prefix = chars_of(HUB_PREFIX);
    if !has_prefix(f.as_slice(), prefix.as_slice()) {
        return None;
    }
    let rest = slice_subrange(f.as_slice(), prefix.len(), f.len());
    assert(rest@ =~= file_name@.skip(HUB_PREFIX@.len() as int));
    let name = slash_pairs(rest);
    Some(string_of(name.as_slice()))
}

/// The chat template that tokenizer settings name: the string under
/// `chat_template`, else the string under `chat_template` inside
/// `tokenizer`, else none. Settings that are no JSON name none.
pub open spec fn chat_template_in(settings: Seq<char>) -> Option<Seq<char>> {
    match json_document(settings) {
        Some(doc) => match member_text(doc, "chat_template"@) {
            Some(template) => Some(template),
            None => match json_member(doc, "tokenizer"@) {
                Some(tokenizer) => member_text(tokenizer, "chat_template"@),
                None => None,
            },
        },
        None => None,
    }
}

/// Reads the chat template out of tokenizer settings.
pub fn read_chat_template(settings: &str) -> (template: Option<String>)
    ensures
        text_view(template) == chat_template_in(settings@),
{
    let doc = match parse(settings) {
        Some(doc) => doc,
        None => {
            return None;
        },
    };
    match text_of_member(&doc, "chat_template") {
        Some(template) => Some(template),
        None => match member(&doc, "tokenizer") {
            Some(tokenizer) => text_of_member(tokenizer, "chat_template"),
            None => None,
        },
    }
}

/// The template that a snapshot is recorded with: the chat template of its
/// tokenizer settings, and the built-in default where there is none.
pub open spec fn template_or_default(chat_template: Option<Seq<char>>) -> Seq<char> {
    match chat_template {
        Some(template) => template,
        None => GO_DEFAULT_TEMPLATE@,
    }
}

/// The template that a snapshot is recorded with.
pub fn effective_chat_template(chat_template: Option<String>) -> (template: String)
    ensures
        template@ == template_or_default(text_view(chat_template)),
{
    match chat_template {
        Some(template) => template,
        None => get_default_template(),
    }
}

/// The template of a snapshot with the given tokenizer settings: the chat
/// template that the settings name, and the built-in default where they
/// name none.
pub open spec fn snapshot_template(settings: Seq<char>) -> Seq<char> {
    template_or_default(chat_template_in(settings))
}

/// The template of a snapshot with the given tokenizer settings.
pub fn template_of_snapshot(settings: &str) -> (template: String)
    ensures
        template@ == snapshot_template(settings@),
{
    effective_chat_template(read_chat_template(settings))
}

/// The sum of the sizes.
pub open spec fn sum_of(sizes: Seq<u64>) -> int
    decreases sizes.len(),
{
    if sizes.len() == 0 {
        0
    } else {
        sum_of(sizes.drop_last()) + sizes.last()
    }
}

/// Adds up the sizes.
pub fn sum_file_sizes(sizes: &[u64]) -> (total: u128)
    ensures
        total == sum_of(sizes@),
{
    let mut total: u128 = 0;
    let mut i: usize = 0;
    assert(sizes@.take(0) =~= Seq::<u64>::empty());
    while i < sizes.len()
        invariant
            0 <= i <= sizes.len(),
            total == sum_of(sizes@.take(i as int)),
            total <= (i as int) * 0xFFFF_FFFF_FFFF_FFFF,
        decreases sizes.len() - i,
    {
        proof {
            let done = sizes@.take(i as int);
            let next = sizes@.take(i + 1);
            assert(next.drop_last() =~= done);
            assert(next.last() == sizes@[i as int]);
        }
        total = total + sizes[i] as u128;
        i += 1;
    }
    assert(sizes@.take(sizes.len() as int) =~= sizes@);
    total
}

/// What was found on disk for one entry of a snapshots directory.
#[derive(Debug, Clone, PartialEq, Eq)]
pub struct SnapshotScan {
    /// The name of the entry.
    pub name: String,
    /// Whether the entry is a directory.
    pub is_dir: bool,
    /// The text of `tokenizer_config.json`, where it is there and could be
    /// read.
    pub tokenizer_config: Option<String>,
    /// The size of each file below the snapshot, a link counting with the
    /// size of what it points to.
    pub file_sizes: Vec<u64>,
}

/// What was found on disk for one entry of a hub cache.
#[derive(Debug, Clone, PartialEq, Eq)]
pub struct HubEntryScan {
    /// The name of the entry.
    pub file_name: String,
    /// Whether the entry is a directory.
    pub is_dir: bool,
    /// What was found out about the entry as a directory.
    pub probe: DirectoryProbe,
    /// Whether the entry holds a snapshots directory.
    pub has_snapshots: bool,
    /// One scan for each entry of the snapshots directory.
    pub snapshots: Vec<SnapshotScan>,
}

/// The files that a repository must hold in some snapshot.
pub open spec fn required_files() -> Seq<Seq<char>> {
    seq!["snapshots/*/config.json"@, "snapshots/*/tokenizer_config.json"@]
}

/// The path of a snapshot below the directory of its repository.
pub open spec fn snapshot_path(repository_dir: Seq<char>, name: Seq<char>) -> Seq<char> {
    joined(joined(repository_dir, SNAPSHOTS_DIR@), name)
}

/// The record of a snapshot with the given template. There is none where
/// the entry is no directory, where it holds no file, or where its files
/// take less than fifty mebibytes or more than a `u64` can count.
pub open spec fn sized_record(
    repository_dir: Seq<char>,
    name: Seq<char>,
    snapshot: Seq<char>,
    is_dir: bool,
    file_sizes: Seq<u64>,
    template: Seq<char>,
) -> Option<ModelView> {
    if is_dir && file_sizes.len() > 0 && SIZE_FLOOR <= sum_of(file_sizes) <= u64::MAX {
        Some(
            ModelView {
                format: ModelType::Transformers,
                path: snapshot_path(repository_dir, snapshot),
                name,
                size: sum_of(file_sizes) as u64,
                template: Some(template),
            },
        )
    } else {
        None
    }
}

/// The record of one snapshot. A snapshot whose tokenizer settings are
/// missing or could not be read has none. Any other snapshot has the one
/// that its sizes allow, with the template of its tokenizer settings.
pub open spec fn snapshot_record(
    repository_dir: Seq<char>,
    name: Seq<char>,
    scan: SnapshotScan,
) -> Option<ModelView> {
    match scan.tokenizer_config {
        Some(settings) => sized_record(
            repository_dir,
            name,
            scan.name@,
            scan.is_dir,
            scan.file_sizes@,
            snapshot_template(settings@),
        ),
        None => None,
    }
}

/// The records of the snapshots that have one, in the order of the scans.
pub open spec fn snapshot_records(
    repository_dir: Seq<char>,
    name: Seq<char>,
    scans: Seq<SnapshotScan>,
) -> Seq<ModelView>
    decreases scans.len(),
{
    if scans.len() == 0 {
        Seq::empty()
    } else {
        let before = snapshot_records(repository_dir, name, scans.drop_last());
        match snapshot_record(repository_dir, name, scans.last()) {
            Some(record) => before.push(record),
            None => before,
        }
    }
}

/// The records of one entry of a hub cache: those of its snapshots where
/// the entry is a directory named as a repository that holds the required
/// files and a snapshots directory, else none.
pub open spec fn hub_entry_records(root: Seq<char>, entry: HubEntryScan) -> Seq<ModelView> {
    match repository_name(entry.file_name@) {
        Some(name) => if entry.is_dir && entry.has_snapshots && has_features(
            joined(root, entry.file_name@),
            entry.probe,
            required_files(),
        ) {
            snapshot_records(joined(root, entry.file_name@), name, entry.snapshots@)
        } else {
            Seq::empty()
        },
        None => Seq::empty(),
    }
}

/// The records of a hub cache, entry by entry.
pub open spec fn hub_records(root: Seq<char>, entries: Seq<HubEntryScan>) -> Seq<ModelView>
    decreases entries.len(),
{
    if entries.len() == 0 {
        Seq::empty()
    } else {
        hub_records(root, entries.drop_last()) + hub_entry_records(root, entries.last())
    }
}

/// The record of a snapshot with the given template, if it has one.
pub fn model_of_snapshot(
    repository_dir: &str,
    name: &str,
    snapshot: &str,
    is_dir: bool,
    file_sizes: &[u64],
    template: String,
) -> (model: Option<Model>)
    ensures
        match model {
            Some(m) => sized_record(
                repository_dir@,
                name@,
                snapshot@,
                is_dir,
                file_sizes@,
                template@,
            ) == Some(m@),
            None => sized_record(repository_dir@, name@, snapshot@, is_dir, file_sizes@, template@)
                is None,
        },
{
    if !is_dir || file_sizes.len() == 0 {
        return None;
    }
    let total = sum_file_sizes(file_sizes);
    if total < SIZE_FLOOR as u128 || total > u64::MAX as u128 {
        return None;
    }
    let snapshots = join_path(repository_dir, SNAPSHOTS_DIR);
    Some(
        Model {
            format: ModelType::Transformers,
            path: join_path(snapshots.as_str(), snapshot),
            name: name.to_owned(),
            size: total as u64,
            template: Some(template),
        },
    )
}

/// The record of one snapshot, if it has one.
pub fn snapshot_model(repository_dir: &str, name: &str, scan: &SnapshotScan) -> (model: Option<
    Model,
>)
    ensures
        match model {
            Some(m) => snapshot_record(repository_dir@, name@, *scan) == Some(m@),
            None => snapshot_record(repository_dir@, name@, *scan) is None,
        },
{
    match &scan.tokenizer_config {
        Some(settings) => model_of_snapshot(
            repository_dir,
            name,
            scan.name.as_str(),
            scan.is_dir,
            scan.file_sizes.as_slice(),
            template_of_snapshot(settings.as_str()),
        ),
        None => None,
    }
}

/// The files that a repository must hold in some snapshot.
pub fn required_file_list() -> (features: Vec<&'static str>)
    ensures
        str_views(features@) == required_files(),
{
    let mut features: Vec<&'static str> = Vec::new();
    features.push("snapshots/*/config.json");
    features.push("snapshots/*/tokenizer_config.json");
    assert(str_views(features@) =~= required_files());
    features
}

/// Adds the models of one entry of a hub cache to the list.
pub fn discover_hf_entry(list: &mut Vec<Model>, root: &str, entry: &HubEntryScan)
    ensures
        model_views(final(list)@) == model_views(old(list)@) + hub_entry_records(root@, *entry),
{
    assert(model_views(list@) + Seq::<ModelView>::empty() =~= model_views(list@));
    let name = match name_of_repository(entry.file_name.as_str()) {
        Some(name) => name,
        None => {
            return ;
        },
    };
    if !entry.is_dir || !entry.has_snapshots {
        return ;
    }
    let dir = join_path(root, entry.file_name.as_str());
    let required = required_file_list();
    if !directory_has_features(dir.as_str(), &entry.probe, required.as_slice()) {
        return ;
    }
    let mut i: usize = 0;
    assert(entry.snapshots@.take(0) =~= Seq::<SnapshotScan>::empty());
    while i < entry.snapshots.len()
        invariant
            0 <= i <= entry.snapshots.len(),
            model_views(list@) == model_views(old(list)@) + snapshot_records(
                dir@,
                name@,
                entry.snapshots@.take(i as int),
            ),
        decreases entry.snapshots.len() - i,
    {
        proof {
            let done = entry.snapshots@.take(i as int);
            let next = entry.snapshots@.take(i + 1);
            assert(next.drop_last() =~= done);
            assert(next.last() == entry.snapshots@[i as int]);
        }
        match snapshot_model(dir.as_str(), name.as_str(), &entry.snapshots[i]) {
            Some(model) => {
                let ghost before = model_views(list@);
                list.push(model);
                assert(model_views(list@) =~= before.push(model@));
            },
            None => {},
        }
        i += 1;
    }
    assert(entry.snapshots@.take(entry.snapshots.len() as int) =~= entry.snapshots@);
}

/// Adds the models of a hub cache to the list.
pub fn discover_hf_models(list: &mut Vec<Model>, root: &str, entries: &[HubEntryScan])
    ensures
        model_views(final(list)@) == model_views(old(list)@) + hub_records(root@, entries@),
{
    let mut i: usize = 0;
    assert(entries@.take(0) =~= Seq::<HubEntryScan>::empty());
    assert(model_views(list@) + Seq::<ModelView>::empty() =~= model_views(list@));
    while i < entries.len()
        invariant
            0 <= i <= entries.len(),
            model_views(list@) == model_views(old(list)@) + hub_records(
                root@,
                entries@.take(i as int),
            ),
        decreases entries.len() - i,
    {
        proof {
            let done = entries@.take(i as int);
            let next = entries@.take(i + 1);
            assert(next.drop_last() =~= done);
            assert(next.last() == entries@[i as int]);
        }
        let ghost before = model_views(list@);
        discover_hf_entry(list, root, &entries[i]);
        assert(model_views(list@) =~= model_views(old(list)@) + (hub_records(
            root@,
            entries@.take(i as int),
        ) + hub_entry_records(root@, entries@[i as int])));
        i += 1;
    }
    assert(entries@.take(entries.len() as int) =~= entries@);
}

/// A snapshot without the content of `tokenizer_config.json` has no
/// record, whatever else it holds and whatever the other snapshots of its
/// repository hold.
pub proof fn lemma_snapshot_without_settings(
    repository_dir: Seq<char>,
    name: Seq<char>,
    scan: SnapshotScan,
)
    requires
        scan.tokenizer_config is None,
    ensures
        snapshot_record(repository_dir, name, scan) is None,
{
}

/// A snapshot whose tokenizer settings are there but name no chat template
/// is recorded with the built-in default template, if it is recorded at
/// all; and it is recorded where it is a directory of at least one file and
/// a countable fifty mebibytes or more.
pub proof fn lemma_snapshot_without_template(
    repository_dir: Seq<char>,
    name: Seq<char>,
    scan: SnapshotScan,
)
    requires
        scan.tokenizer_config matches Some(settings) && chat_template_in(settings@) is None,
    ensures
        snapshot_record(repository_dir, name, scan) matches Some(record) ==> record.template
            == Some(GO_DEFAULT_TEMPLATE@),
        scan.is_dir && scan.file_sizes@.len() > 0 && SIZE_FLOOR <= sum_of(scan.file_sizes@)
            <= u64::MAX ==> snapshot_record(repository_dir, name, scan) is Some,
{
}

/// A repository of which no snapshot holds `tokenizer_config.json` has no
/// record.
pub proof fn lemma_repository_without_tokenizer_config(root: Seq<char>, entry: HubEntryScan)
    requires
        !glob_answer(
            entry.probe.globs@,
            path_pattern(joined(root, entry.file_name@), "snapshots/*/tokenizer_config.json"@),
        ),
    ensures
        hub_entry_records(root, entry) == Seq::<ModelView>::empty(),
{
    let feature = "snapshots/*/tokenizer_config.json"@;
    reveal_strlit("snapshots/*/tokenizer_config.json");
    assert(feature[9] == '/');
    assert(is_path_feature(feature));
    assert(required_files()[1] == feature);
    assert(!feature_holds(joined(root, entry.file_name@), entry.probe, required_files()[1]));
}

} // verus!
