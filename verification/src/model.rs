//! The record of one discovered model.

use vstd::prelude::*;

verus! {

/// The container format of a model's weights.
#[derive(Clone, Copy, Debug, PartialEq, Eq, Structural)]
pub enum ModelType {
    Gguf,
    Transformers,
}

/// One discovered model. Records are made by discovery and never changed.
#[derive(Debug, PartialEq, Eq)]
pub struct Model {
    pub format: ModelType,
    pub path: String,
    pub name: String,
    pub size: u64,
    pub template: Option<String>,
}

/// What a model record says, with texts as sequences of characters.
pub struct ModelView {
    pub format: ModelType,
    pub path: Seq<char>,
    pub name: Seq<char>,
    pub size: u64,
    pub template: Option<Seq<char>>,
}

/// The view of an optional text.
pub open spec fn text_view(text: Option<String>) -> Option<Seq<char>> {
    match text {
        Some(t) => Some(t@),
        None => None,
    }
}

impl View for Model {
    type V = ModelView;

    open spec fn view(&self) -> ModelView {
        ModelView {
            format: self.format,
            path: self.path@,
            name: self.name@,
            size: self.size,
            template: text_view(self.template),
        }
    }
}

/// The views of a list of records.
pub open spec fn model_views(list: Seq<Model>) -> Seq<ModelView> {
    list.map_values(|m: Model| m@)
}

/// A copy of an optional text.
pub fn copy_text(text: &Option<String>) -> (copy: Option<String>)
    ensures
        copy == *text,
{
    match text {
        Some(t) => Some(t.clone()),
        None => None,
    }
}

impl Clone for Model {
    fn clone(&self) -> (copy: Self)
        ensures
            copy == *self,
    {
        Model {
            format: self.format,
            path: self.path.clone(),
            name: self.name.clone(),
            size: self.size,
            template: copy_text(&self.template),
        }
    }
}

/// The unit in which a size is shown.
#[derive(Clone, Copy, Debug, PartialEq, Eq, Structural)]
pub enum SizeUnit {
    Megabytes,
    Gigabytes,
}

/// The number of bytes from which on a size is shown in gigabytes.
pub const GIGABYTE: u64 = 1_073_741_824;

/// The unit in which a size is shown: megabytes below a gigabyte, else
/// gigabytes.
pub fn size_unit(size: u64) -> (unit: SizeUnit)
    ensures
        unit == if size < GIGABYTE {
            SizeUnit::Megabytes
        } else {
            SizeUnit::Gigabytes
        },
{
    if size < GIGABYTE {
        SizeUnit::Megabytes
    } else {
        SizeUnit::Gigabytes
    }
}

/// The name under which a format is shown.
pub fn format_label(format: ModelType) -> (label: &'static str)
    ensures
        label@ == (match format {
            ModelType::Gguf => "GGUF"@,
            ModelType::Transformers => "Transformers"@,
        }),
{
    match format {
        ModelType::Gguf => "GGUF",
        ModelType::Transformers => "Transformers",
    }
}

impl Model {
    /// The record of a model named by the path of its weights: a GGUF file
    /// of unknown size and without a chat template, named as its path.
    pub fn from_path(path: &String) -> (model: Self)
        ensures
            model@ == (ModelView {
                format: ModelType::Gguf,
                path: path@,
                name: path@,
                size: 0,
                template: None,
            }),
    {
        Model {
            path: path.clone(),
            name: path.clone(),
            format: ModelType::Gguf,
            size: 0,
            template: None,
        }
    }
}

} // verus!
