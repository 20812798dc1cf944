//! A type definition as the generator sees it.
//!
//! These types hold, as plain values, the parts of a parsed definition that
//! the generator reads: names, the variants in their order, and the meta item
//! that each attribute forms. Each has a view in which text is a sequence of
//! characters and a list is a sequence.

use vstd::prelude::*;

verus! {

/// The views of the items of a sequence, in the same order.
pub open spec fn views<T: View>(items: Seq<T>) -> Seq<T::V> {
    Seq::new(items.len(), |i: int| items[i]@)
}

/// A path such as `level` or `::serde::rename`.
#[derive(Debug)]
pub struct Path {
    /// Whether the path starts with `::`.
    pub leading_colon: bool,
    /// The names between the `::`, first to last.
    pub segments: Vec<String>,
}

/// A [`Path`] with its names as character sequences.
pub struct PathView {
    pub leading_colon: bool,
    pub segments: Seq<Seq<char>>,
}

impl View for Path {
    type V = PathView;

    open spec fn view(&self) -> PathView {
        PathView { leading_colon: self.leading_colon, segments: views(self.segments@) }
    }
}

impl PathView {
    /// The name that the path consists of, where it is one bare name.
    pub open spec fn get_ident(self) -> Option<Seq<char>> {
        if !self.leading_colon && self.segments.len() == 1 {
            Some(self.segments[0])
        } else {
            None
        }
    }
}

impl Path {
    /// The name that the path consists of, where it is one bare name: no
    /// leading `::` and a single segment.
    pub fn get_ident(&self) -> (ident: Option<&String>)
        ensures
            match ident {
                Some(name) => self@.get_ident() == Some(name@),
                None => self@.get_ident().is_none(),
            },
    {
        if !self.leading_colon && self.segments.len() == 1 {
            Some(&self.segments[0])
        } else {
            None
        }
    }
}

/// One argument of a list-style meta item.
#[derive(Debug)]
pub enum NestedMeta {
    /// A structured item, like the `Error` in `level(Error)`. Of the item only
    /// its path is kept.
    Meta(Path),
    /// A literal, like the `42` in `level(42)`.
    Lit,
}

/// The view of a [`NestedMeta`].
pub enum NestedMetaView {
    Meta(PathView),
    Lit,
}

impl View for NestedMeta {
    type V = NestedMetaView;

    open spec fn view(&self) -> NestedMetaView {
        match self {
            NestedMeta::Meta(path) => NestedMetaView::Meta(path@),
            NestedMeta::Lit => NestedMetaView::Lit,
        }
    }
}

/// A list-style meta item, like `level(Error)`.
#[derive(Debug)]
pub struct MetaList {
    pub path: Path,
    /// The arguments between the parentheses, in their order.
    pub nested: Vec<NestedMeta>,
}

/// The view of a [`MetaList`].
pub struct MetaListView {
    pub path: PathView,
    pub nested: Seq<NestedMetaView>,
}

impl View for MetaList {
    type V = MetaListView;

    open spec fn view(&self) -> MetaListView {
        MetaListView { path: self.path@, nested: views(self.nested@) }
    }
}

/// The structured content of an attribute.
#[derive(Debug)]
pub enum Meta {
    /// A bare path, like `test`.
    Path(Path),
    /// A list, like `level(Error)`.
    List(MetaList),
    /// A name and a value, like `doc = "text"`. The value is not kept.
    NameValue(Path),
}

/// The view of a [`Meta`].
pub enum MetaView {
    Path(PathView),
    List(MetaListView),
    NameValue(PathView),
}

impl View for Meta {
    type V = MetaView;

    open spec fn view(&self) -> MetaView {
        match self {
            Meta::Path(path) => MetaView::Path(path@),
            Meta::List(list) => MetaView::List(list@),
            Meta::NameValue(path) => MetaView::NameValue(path@),
        }
    }
}

/// An attribute in front of a variant.
#[derive(Debug)]
pub struct Attribute {
    /// The meta item that the attribute's tokens form, or `None` where they
    /// form none (as in `#[bound(T: Copy)]`).
    pub meta: Option<Meta>,
}

/// The view of an [`Attribute`].
pub struct AttributeView {
    pub meta: Option<MetaView>,
}

impl View for Attribute {
    type V = AttributeView;

    open spec fn view(&self) -> AttributeView {
        AttributeView {
            meta: match self.meta {
                Some(meta) => Some(meta@),
                None => None,
            },
        }
    }
}

/// A variant of an enum.
#[derive(Debug)]
pub struct Variant {
    pub ident: String,
    /// The attributes in front of the variant, in their order.
    pub attrs: Vec<Attribute>,
}

/// The view of a [`Variant`].
pub struct VariantView {
    pub ident: Seq<char>,
    pub attrs: Seq<AttributeView>,
}

impl View for Variant {
    type V = VariantView;

    open spec fn view(&self) -> VariantView {
        VariantView { ident: self.ident@, attrs: views(self.attrs@) }
    }
}

/// The body of an enum.
#[derive(Debug)]
pub struct DataEnum {
    /// The variants in the order in which they are declared.
    pub variants: Vec<Variant>,
}

/// The view of a [`DataEnum`].
pub struct DataEnumView {
    pub variants: Seq<VariantView>,
}

impl View for DataEnum {
    type V = DataEnumView;

    open spec fn view(&self) -> DataEnumView {
        DataEnumView { variants: views(self.variants@) }
    }
}

/// What kind of type a definition defines.
#[derive(Debug)]
pub enum Data {
    Struct,
    Enum(DataEnum),
    Union,
}

/// The view of a [`Data`].
pub enum DataView {
    Struct,
    Enum(DataEnumView),
    Union,
}

impl View for Data {
    type V = DataView;

    open spec fn view(&self) -> DataView {
        match self {
            Data::Struct => DataView::Struct,
            Data::Enum(data) => DataView::Enum(data@),
            Data::Union => DataView::Union,
        }
    }
}

/// A type definition that asks for an implementation.
#[derive(Debug)]
pub struct DeriveInput {
    /// The name of the type.
    pub ident: String,
    pub data: Data,
}

/// The view of a [`DeriveInput`].
pub struct DeriveInputView {
    pub ident: Seq<char>,
    pub data: DataView,
}

impl View for DeriveInput {
    type V = DeriveInputView;

    open spec fn view(&self) -> DeriveInputView {
        DeriveInputView { ident: self.ident@, data: self.data@ }
    }
}

} // verus!
