//! The Ollama store: manifests that name content-addressed blobs.

use crate::json::{
    elements, integer_of_member, json_document, member, member_elements, member_integer,
    member_text, parse, text_of_member,
};
use crate::model::{model_views, text_view, Model, ModelType, ModelView};
use crate::path::{join_path, joined};
use crate::text::{
    chars_of, join, join_strings, replace_char, replace_chars, same_text, string_of, views,
};
use vstd::prelude::*;
use vstd::slice::slice_subrange;

verus! {

/// The domain of the official registry. Models from it are named without
/// the domain.
pub const REGISTRY_DOMAIN: &'static str = "registry.ollama.ai";

/// The segment under which the official registry keeps its own models.
pub const LIBRARY_SEGMENT: &'static str = "library";

/// The media type of the layer that holds the chat template.
pub const TEMPLATE_MEDIA_TYPE: &'static str = "application/vnd.ollama.image.template";

/// The media type of the layer that holds the weights.
pub const MODEL_MEDIA_TYPE: &'static str = "application/vnd.ollama.image.model";

/// The directory of the blobs, below the root of the store.
pub const BLOBS_DIR: &'static str = "blobs";

/// One layer of a manifest: what the discovery reads of it.
#[derive(Debug, Clone, PartialEq, Eq)]
pub struct Layer {
    pub media_type: Option<String>,
    pub digest: Option<String>,
    pub size: Option<i64>,
}

/// A layer with its texts as sequences of characters.
pub struct LayerView {
    pub media_type: Option<Seq<char>>,
    pub digest: Option<Seq<char>>,
    pub size: Option<i64>,
}

impl View for Layer {
    type V = LayerView;

    open spec fn view(&self) -> LayerView {
        LayerView {
            media_type: text_view(self.media_type),
            digest: text_view(self.digest),
            size: self.size,
        }
    }
}

/// The views of a list of layers.
pub open spec fn layer_views(list: Seq<Layer>) -> Seq<LayerView> {
    list.map_values(|l: Layer| l@)
}

/// The layer that a JSON value describes: its `mediaType` and `digest`
/// where they are strings, its `size` where it is an integer.
pub open spec fn layer_of(value: serde_json::Value) -> LayerView {
    LayerView {
        media_type: member_text(value, "mediaType"@),
        digest: member_text(value, "digest"@),
        size: member_integer(value, "size"@),
    }
}

/// The layers of each of the values.
pub open spec fn layers_of(items: Seq<serde_json::Value>) -> Seq<LayerView> {
    items.map_values(|v: serde_json::Value| layer_of(v))
}

/// The layers of a manifest: those of the array under `layers`, none where
/// there is no such array; nothing at all where the text is no JSON.
pub open spec fn manifest_layers(body: Seq<char>) -> Option<Seq<LayerView>> {
    match json_document(body) {
        Some(doc) => Some(
            match member_elements(doc, "layers"@) {
                Some(items) => layers_of(items),
                None => Seq::empty(),
            },
        ),
        None => None,
    }
}

/// Reads the layers of a manifest.
pub fn read_manifest(body: &str) -> (layers: Option<Vec<Layer>>)
    ensures
        match layers {
            Some(list) => manifest_layers(body@) == Some(layer_views(list@)),
            None => manifest_layers(body@) is None,
        },
{
    let doc = match parse(body) {
        Some(doc) => doc,
        None => {
            return None;
        },
    };
    let mut layers: Vec<Layer> = Vec::new();
    let items = match member(&doc, "layers") {
        Some(m) => match elements(m) {
            Some(items) => items,
            None => {
                assert(layer_views(layers@) =~= Seq::<LayerView>::empty());
                return Some(layers);
            },
        },
        None => {
            assert(layer_views(layers@) =~= Seq::<LayerView>::empty());
            return Some(layers);
        },
    };
    let mut i: usize = 0;
    while i < items.len()
        invariant
            0 <= i <= items.len(),
            layer_views(layers@) == layers_of(items@.take(i as int)),
        decreases items.len() - i,
    {
        let item = &items[i];
        let layer = Layer {
            media_type: text_of_member(item, "mediaType"),
            digest: text_of_member(item, "digest"),
            size: integer_of_member(item, "size"),
        };
        assert(layer@ == layer_of(items@[i as int]));
        let ghost before = layer_views(layers@);
        layers.push(layer);
        i += 1;
        assert(layer_views(layers@) =~= before.push(layer@));
        assert(layer_views(layers@) =~= layers_of(items@.take(i as int)));
    }
    assert(items@.take(items.len() as int) =~= items@);
    Some(layers)
}

/// The size that a layer counts for: its own, or nothing where it names
/// none.
pub open spec fn layer_size(layer: LayerView) -> int {
    match layer.size {
        Some(size) => size as int,
        None => 0,
    }
}

/// The sum of the sizes of the layers.
pub open spec fn total_size(layers: Seq<LayerView>) -> int
    decreases layers.len(),
{
    if layers.len() == 0 {
        0
    } else {
        total_size(layers.drop_last()) + layer_size(layers.last())
    }
}

/// Adds up the sizes of the layers.
pub fn sum_sizes(layers: &[Layer]) -> (total: i128)
    ensures
        total == total_size(layer_views(layers@)),
{
    let mut total: i128 = 0;
    let mut i: usize = 0;
    assert(layer_views(layers@).take(0) =~= Seq::<LayerView>::empty());
    while i < layers.len()
        invariant
            0 <= i <= layers.len(),
            total == total_size(layer_views(layers@).take(i as int)),
            -(i as int) * 0x8000_0000_0000_0000 <= total <= (i as int) * 0x8000_0000_0000_0000,
        decreases layers.len() - i,
    {
        let size: i64 = match layers[i].size {
            Some(size) => size,
            None => 0,
        };
        proof {
            let done = layer_views(layers@).take(i as int);
            let next = layer_views(layers@).take(i + 1);
            assert(next.drop_last() =~= done);
            assert(next.last() == layers@[i as int]@);
        }
        total = total + size as i128;
        i += 1;
    }
    assert(layer_views(layers@).take(layers.len() as int) =~= layer_views(layers@));
    total
}

/// The first layer of the given media type, if there is one.
pub open spec fn first_of_type(layers: Seq<LayerView>, media_type: Seq<char>) -> Option<LayerView>
    decreases layers.len(),
{
    if layers.len() == 0 {
        None
    } else if layers[0].media_type == Some(media_type) {
        Some(layers[0])
    } else {
        first_of_type(layers.skip(1), media_type)
    }
}

/// The file name of the blob with the given digest: the digest with `-` in
/// place of each `:`.
pub open spec fn blob_name(digest: Seq<char>) -> Seq<char> {
    replace_char(digest, ':', '-')
}

/// The blob of the first layer of the given media type: none where there is
/// no such layer, or where that layer names no digest.
pub open spec fn blob_of(layers: Seq<LayerView>, media_type: Seq<char>) -> Option<Seq<char>> {
    match first_of_type(layers, media_type) {
        Some(layer) => match layer.digest {
            Some(digest) => Some(blob_name(digest)),
            None => None,
        },
        None => None,
    }
}

/// The file name of the blob of the first layer of the given media type.
pub fn find_blob(layers: &[Layer], media_type: &str) -> (blob: Option<String>)
    ensures
        text_view(blob) == blob_of(layer_views(layers@), media_type@),
{
    let mut i: usize = 0;
    assert(layer_views(layers@).skip(0) =~= layer_views(layers@));
    while i < layers.len()
        invariant
            0 <= i <= layers.len(),
            first_of_type(layer_views(layers@), media_type@) == first_of_type(
                layer_views(layers@).skip(i as int),
                media_type@,
            ),
        decreases layers.len() - i,
    {
        let ghost rest = layer_views(layers@).skip(i as int);
        assert(rest[0] == layers@[i as int]@);
        assert(rest.skip(1) =~= layer_views(layers@).skip(i + 1));
        let is_wanted = match &layers[i].media_type {
            Some(t) => same_text(t.as_str(), media_type),
            None => false,
        };
        if is_wanted {
            return match &layers[i].digest {
                Some(digest) => {
                    let d = chars_of(digest.as_str());
                    let name = replace_chars(d.as_slice(), ':', '-');
                    Some(string_of(name.as_slice()))
                },
                None => None,
            };
        }
        i += 1;
    }
    None
}

/// The blobs that a manifest sends the discovery to.
#[derive(Debug, Clone, PartialEq, Eq)]
pub struct BlobPlan {
    /// The blob whose content is the chat template.
    pub template: Option<String>,
    /// The blob that must be on disk for the model to count.
    pub weights: Option<String>,
}

/// Which blobs are to be looked at for a manifest.
pub fn blob_plan(layers: &[Layer]) -> (plan: BlobPlan)
    ensures
        text_view(plan.template) == blob_of(layer_views(layers@), TEMPLATE_MEDIA_TYPE@),
        text_view(plan.weights) == blob_of(layer_views(layers@), MODEL_MEDIA_TYPE@),
{
    BlobPlan {
        template: find_blob(layers, TEMPLATE_MEDIA_TYPE),
        weights: find_blob(layers, MODEL_MEDIA_TYPE),
    }
}

/// The path of a blob below the root of the store.
pub open spec fn blob_path(root: Seq<char>, blob: Seq<char>) -> Seq<char> {
    joined(joined(root, BLOBS_DIR@), blob)
}

/// The segments that name the model: all of them, but without the domain of
/// the official registry and without a `library` segment that follows it.
pub open spec fn naming_segments(components: Seq<Seq<char>>) -> Seq<Seq<char>> {
    if components.len() > 0 && components[0] == REGISTRY_DOMAIN@ {
        if components.len() > 1 && components[1] == LIBRARY_SEGMENT@ {
            components.skip(2)
        } else {
            components.skip(1)
        }
    } else {
        components
    }
}

/// The name of the model whose manifest lies at the given path below the
/// manifests directory: the last naming segment is the tag, the others,
/// joined by `/`, the repository; the name is repository, `:`, tag. With
/// fewer than two naming segments there is no name.
pub open spec fn model_name(components: Seq<Seq<char>>) -> Option<Seq<char>> {
    let segments = naming_segments(components);
    if segments.len() < 2 {
        None
    } else {
        Some(join(segments.drop_last(), seq!['/']) + seq![':'] + segments.last())
    }
}

/// The name of the model whose manifest lies at the given path.
pub fn name_of_manifest(components: &[String]) -> (name: Option<String>)
    ensures
        text_view(name) == model_name(views(components@)),
{
    let mut skip: usize = 0;
    if components.len() > 0 && same_text(components[0].as_str(), REGISTRY_DOMAIN) {
        skip = 1;
        if components.len() > 1 && same_text(components[1].as_str(), LIBRARY_SEGMENT) {
            skip = 2;
        }
    }
    let segments = slice_subrange(components, skip, components.len());
    assert(views(segments@) =~= naming_segments(views(components@)));
    if segments.len() < 2 {
        return None;
    }
    let repository = slice_subrange(segments, 0, segments.len() - 1);
    assert(views(repository@) =~= views(segments@).drop_last());
    proof {
        reveal_strlit("/");
        assert("/"@ =~= seq!['/']);
    }
    let mut name = join_strings(repository, "/");
    name.push(':');
    name.append(segments[segments.len() - 1].as_str());
    Some(name)
}

/// What was found on disk for one manifest.
#[derive(Debug, Clone, PartialEq, Eq)]
pub struct ManifestScan {
    /// The components of the manifest's path below the manifests directory.
    pub components: Vec<String>,
    /// The text of the manifest, where it could be read.
    pub body: Option<String>,
    /// The content of the template blob, where it could be read.
    pub template: Option<String>,
    /// Whether the weights blob is on disk.
    pub weights_present: bool,
}

/// The record of a model from the layers of its manifest. There is none
/// where the sizes of the layers do not add up to a number of bytes above
/// zero that a `u64` can hold, where no weights layer names a digest, or
/// where the weights blob is not on disk. The template counts only where a
/// template layer names a digest.
pub open spec fn layers_record(
    root: Seq<char>,
    name: Seq<char>,
    layers: Seq<LayerView>,
    template: Option<Seq<char>>,
    weights_present: bool,
) -> Option<ModelView> {
    match blob_of(layers, MODEL_MEDIA_TYPE@) {
        Some(blob) => if 0 < total_size(layers) <= u64::MAX && weights_present {
            Some(
                ModelView {
                    format: ModelType::Gguf,
                    path: blob_path(root, blob),
                    name,
                    size: total_size(layers) as u64,
                    template: if blob_of(layers, TEMPLATE_MEDIA_TYPE@) is Some {
                        template
                    } else {
                        None
                    },
                },
            )
        } else {
            None
        },
        None => None,
    }
}

/// The record of a model from the layers of its manifest, if it has one.
pub fn model_of_layers(
    root: &str,
    name: String,
    layers: &[Layer],
    template: &Option<String>,
    weights_present: bool,
) -> (model: Option<Model>)
    ensures
        match model {
            Some(m) => layers_record(
                root@,
                name@,
                layer_views(layers@),
                text_view(*template),
                weights_present,
            ) == Some(m@),
            None => layers_record(
                root@,
                name@,
                layer_views(layers@),
                text_view(*template),
                weights_present,
            ) is None,
        },
{
    let total = sum_sizes(layers);
    if total <= 0 || total > u64::MAX as i128 {
        return None;
    }
    let plan = blob_plan(layers);
    let blob = match plan.weights {
        Some(blob) => blob,
        None => {
            return None;
        },
    };
    if !weights_present {
        return None;
    }
    let blobs = join_path(root, BLOBS_DIR);
    let template = if plan.template.is_some() {
        crate::model::copy_text(template)
    } else {
        None
    };
    Some(
        Model {
            format: ModelType::Gguf,
            path: join_path(blobs.as_str(), blob.as_str()),
            name,
            size: total as u64,
            template,
        },
    )
}

/// The record of the model of one manifest. There is none where the path
/// gives no name, where the manifest could not be read or is no JSON, or
/// where its layers give none.
pub open spec fn ollama_record(root: Seq<char>, scan: ManifestScan) -> Option<ModelView> {
    match (model_name(views(scan.components@)), text_view(scan.body)) {
        (Some(name), Some(body)) => match manifest_layers(body) {
            Some(layers) => layers_record(
                root,
                name,
                layers,
                text_view(scan.template),
                scan.weights_present,
            ),
            None => None,
        },
        _ => None,
    }
}

/// The record of the model of one manifest, if it has one.
pub fn ollama_model(root: &str, scan: &ManifestScan) -> (model: Option<Model>)
    ensures
        match model {
            Some(m) => ollama_record(root@, *scan) == Some(m@),
            None => ollama_record(root@, *scan) is None,
        },
{
    let name = match name_of_manifest(scan.components.as_slice()) {
        Some(name) => name,
        None => {
            return None;
        },
    };
    let body = match &scan.body {
        Some(body) => body,
        None => {
            return None;
        },
    };
    let layers = match read_manifest(body.as_str()) {
        Some(layers) => layers,
        None => {
            return None;
        },
    };
    model_of_layers(root, name, layers.as_slice(), &scan.template, scan.weights_present)
}

/// What was found on disk in an Ollama store.
#[derive(Debug, Clone, PartialEq, Eq)]
pub struct OllamaStore {
    /// Whether the manifests directory is there.
    pub has_manifests: bool,
    /// One scan for each file below the manifests directory.
    pub manifests: Vec<ManifestScan>,
}

/// The records of the manifests that have one, in the order of the scans.
pub open spec fn ollama_records(root: Seq<char>, scans: Seq<ManifestScan>) -> Seq<ModelView>
    decreases scans.len(),
{
    if scans.len() == 0 {
        Seq::empty()
    } else {
        let before = ollama_records(root, scans.drop_last());
        match ollama_record(root, scans.last()) {
            Some(record) => before.push(record),
            None => before,
        }
    }
}

/// The records of a store: none without a manifests directory.
pub open spec fn ollama_store_records(root: Seq<char>, store: OllamaStore) -> Seq<ModelView> {
    if store.has_manifests {
        ollama_records(root, store.manifests@)
    } else {
        Seq::empty()
    }
}

/// Adds the models of an Ollama store to the list.
pub fn discover_ollama_models(list: &mut Vec<Model>, root: &str, store: &OllamaStore)
    ensures
        model_views(final(list)@) == model_views(old(list)@) + ollama_store_records(root@, *store),
{
    if !store.has_manifests {
        assert(model_views(list@) + Seq::<ModelView>::empty() =~= model_views(list@));
        return ;
    }
    let mut i: usize = 0;
    assert(store.manifests@.take(0) =~= Seq::<ManifestScan>::empty());
    assert(model_views(list@) + Seq::<ModelView>::empty() =~= model_views(list@));
    while i < store.manifests.len()
        invariant
            0 <= i <= store.manifests.len(),
            model_views(list@) == model_views(old(list)@) + ollama_records(
                root@,
                store.manifests@.take(i as int),
            ),
        decreases store.manifests.len() - i,
    {
        proof {
            let done = store.manifests@.take(i as int);
            let next = store.manifests@.take(i + 1);
            assert(next.drop_last() =~= done);
            assert(next.last() == store.manifests@[i as int]);
        }
        match ollama_model(root, &store.manifests[i]) {
            Some(model) => {
                let ghost before = model_views(list@);
                list.push(model);
                assert(model_views(list@) =~= before.push(model@));
            },
            None => {},
        }
        i += 1;
    }
    assert(store.manifests@.take(store.manifests.len() as int) =~= store.manifests@);
}

/// Layers that add up to no bytes give no record.
pub proof fn lemma_empty_layers_are_excluded(
    root: Seq<char>,
    name: Seq<char>,
    layers: Seq<LayerView>,
    template: Option<Seq<char>>,
    weights_present: bool,
)
    requires
        total_size(layers) == 0,
    ensures
        layers_record(root, name, layers, template, weights_present) is None,
{
}

/// A manifest whose layers add up to no bytes has no record.
pub proof fn lemma_empty_manifest_is_excluded(root: Seq<char>, scan: ManifestScan)
    requires
        scan.body matches Some(body) && manifest_layers(body@) matches Some(layers) && total_size(
            layers,
        ) == 0,
    ensures
        ollama_record(root, scan) is None,
{
}

} // verus!
