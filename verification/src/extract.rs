//! Reading the `level(..)` annotations of an enum's variants.

use vstd::prelude::*;
use crate::error::ExpandError;
use crate::level::{level_named, Level};
use crate::syntax::{
    views, Attribute, AttributeView, Meta, MetaList, MetaListView, MetaView, NestedMeta,
    NestedMetaView, Path, PathView, Variant, VariantView,
};
use crate::text::str_eq;

verus! {

/// Whether a list is a `level(..)` annotation: its path is the bare name
/// `level`.
pub open spec fn is_level_list(list: MetaListView) -> bool {
    list.path.get_ident() == Some("level"@)
}

/// The argument that decides: the path of the first one, which must be a
/// structured item.
pub open spec fn first_argument(list: MetaListView) -> Result<PathView, ExpandError> {
    if list.nested.len() == 0 {
        Err(ExpandError::MissingArgument)
    } else {
        match list.nested[0] {
            NestedMetaView::Meta(path) => Ok(path),
            NestedMetaView::Lit => Err(ExpandError::LiteralArgument),
        }
    }
}

/// The severity that a `level(..)` annotation gives. Only its first argument
/// is read: it must be a bare name, and one of the six spellings.
pub open spec fn level_of_list(list: MetaListView) -> Result<Level, ExpandError> {
    match first_argument(list) {
        Err(e) => Err(e),
        Ok(path) => match path.get_ident() {
            None => Err(ExpandError::NotAName),
            Some(name) => match level_named(name) {
                Some(level) => Ok(level),
                None => Err(ExpandError::UnknownLevel),
            },
        },
    }
}

/// Whether the scan of a variant's attributes ends at this one: it forms no
/// meta item, or it is a `level(..)` annotation.
pub open spec fn decides(attr: AttributeView) -> bool {
    match attr.meta {
        None => true,
        Some(MetaView::List(list)) => is_level_list(list),
        Some(_) => false,
    }
}

/// What the scan returns when it ends at `attr`.
pub open spec fn decision(attr: AttributeView) -> Result<Option<Level>, ExpandError> {
    match attr.meta {
        Some(MetaView::List(list)) => match level_of_list(list) {
            Ok(level) => Ok(Some(level)),
            Err(e) => Err(e),
        },
        _ => Err(ExpandError::MalformedAttribute),
    }
}

/// The severity of a variant with these attributes: that of the first
/// attribute that decides, and none where no attribute does.
pub open spec fn level_of_attrs(attrs: Seq<AttributeView>) -> Result<Option<Level>, ExpandError>
    decreases attrs.len(),
{
    if attrs.len() == 0 {
        Ok(None)
    } else if decides(attrs[0]) {
        decision(attrs[0])
    } else {
        level_of_attrs(attrs.drop_first())
    }
}

/// A variant together with the severity that its annotation gives it.
#[derive(Debug)]
pub struct Marked {
    pub level: Level,
    pub variant_id: String,
}

/// The view of a [`Marked`].
pub struct MarkedView {
    pub level: Level,
    pub variant_id: Seq<char>,
}

impl View for Marked {
    type V = MarkedView;

    open spec fn view(&self) -> MarkedView {
        MarkedView { level: self.level, variant_id: self.variant_id@ }
    }
}

/// The annotated variants among `variants`, in declaration order, or the error
/// of the first variant whose attributes give one.
pub open spec fn marked_of(variants: Seq<VariantView>) -> Result<Seq<MarkedView>, ExpandError>
    decreases variants.len(),
{
    if variants.len() == 0 {
        Ok(Seq::empty())
    } else {
        let last = variants.last();
        match marked_of(variants.drop_last()) {
            Err(e) => Err(e),
            Ok(marked) => match level_of_attrs(last.attrs) {
                Err(e) => Err(e),
                Ok(None) => Ok(marked),
                Ok(Some(level)) => Ok(
                    marked.push(MarkedView { level: level, variant_id: last.ident }),
                ),
            },
        }
    }
}

/// Whether a list is a `level(..)` annotation.
pub fn has_level_path(m: &MetaList) -> (is_level: bool)
    ensures
        is_level == is_level_list(m@),
{
    match m.path.get_ident() {
        Some(ident) => str_eq(ident.as_str(), "level"),
        None => false,
    }
}

/// The structured item that an argument is; a literal is refused.
pub fn unwrap_meta(n: &NestedMeta) -> (path: Result<&Path, ExpandError>)
    ensures
        match path {
            Ok(p) => n@ == NestedMetaView::Meta(p@),
            Err(e) => n@ == NestedMetaView::Lit && e == ExpandError::LiteralArgument,
        },
{
    match n {
        NestedMeta::Meta(path) => Ok(path),
        NestedMeta::Lit => Err(ExpandError::LiteralArgument),
    }
}

/// The severity that a `level(..)` annotation gives.
pub fn list_level(list: &MetaList) -> (level: Result<Level, ExpandError>)
    ensures
        level == level_of_list(list@),
{
    if list.nested.len() == 0 {
        return Err(ExpandError::MissingArgument);
    }
    let path = match unwrap_meta(&list.nested[0]) {
        Ok(path) => path,
        Err(e) => { return Err(e); },
    };
    match path.get_ident() {
        Some(ident) => Level::from_ident(ident.as_str()),
        None => Err(ExpandError::NotAName),
    }
}

/// The severity that a variant's annotation gives it.
///
/// The attributes are read in their order. One that forms no meta item ends
/// the scan with an error. The first list named `level` decides; attributes
/// behind it are not looked at. Without such a list the variant has no
/// annotation, which is `Ok(None)`.
pub fn log_level(v: &Variant) -> (level: Result<Option<Level>, ExpandError>)
    ensures
        level == level_of_attrs(v@.attrs),
{
    let ghost attrs = v@.attrs;
    let n: usize = v.attrs.len();
    let mut i: usize = 0;
    proof {
        assert(attrs.skip(0) =~= attrs);
    }
    while i < n
        invariant
            i <= n,
            n == v.attrs@.len(),
            attrs == views(v.attrs@),
            level_of_attrs(attrs) == level_of_attrs(attrs.skip(i as int)),
        decreases n - i,
    {
        let a = &v.attrs[i];
        proof {
            assert(attrs.skip(i as int)[0] == a@);
            assert(attrs.skip(i as int).drop_first() =~= attrs.skip(i + 1));
        }
        match &a.meta {
            None => { return Err(ExpandError::MalformedAttribute); },
            Some(Meta::List(list)) => {
                if has_level_path(list) {
                    return match list_level(list) {
                        Ok(level) => Ok(Some(level)),
                        Err(e) => Err(e),
                    };
                }
            },
            Some(_) => {},
        }
        i += 1;
    }
    Ok(None)
}

/// The view of what [`marked_variants`] returns.
pub open spec fn marked_view(marked: Result<Vec<Marked>, ExpandError>) -> Result<
    Seq<MarkedView>,
    ExpandError,
> {
    match marked {
        Ok(list) => Ok(views(list@)),
        Err(e) => Err(e),
    }
}

/// The annotated variants with their severities, in declaration order.
///
/// Variants without an annotation are left out. The first variant whose
/// attributes give an error ends the walk with that error.
pub fn marked_variants(variants: &Vec<Variant>) -> (marked: Result<Vec<Marked>, ExpandError>)
    ensures
        marked_view(marked) == marked_of(views(variants@)),
{
    let ghost all = views(variants@);
    let mut marked: Vec<Marked> = Vec::new();
    let n: usize = variants.len();
    let mut i: usize = 0;
    proof {
        assert(views(marked@) =~= Seq::empty());
        assert(all.take(0).len() == 0);
    }
    while i < n
        invariant
            i <= n,
            n == variants@.len(),
            all == views(variants@),
            marked_of(all.take(i as int)) == Ok::<Seq<MarkedView>, ExpandError>(views(marked@)),
        decreases n - i,
    {
        let v = &variants[i];
        let ghost before = views(marked@);
        proof {
            assert(all.take(i + 1).drop_last() =~= all.take(i as int));
            assert(all.take(i + 1).last() == v@);
        }
        match log_level(v) {
            Err(e) => {
                proof {
                    lemma_marked_error_stays(all, i + 1);
                }
                return Err(e);
            },
            Ok(None) => {},
            Ok(Some(level)) => {
                let variant_id = v.ident.clone();
                marked.push(Marked { level, variant_id });
                proof {
                    assert(views(marked@) =~= before.push(
                        MarkedView { level: level, variant_id: v@.ident },
                    ));
                }
            },
        }
        i += 1;
    }
    proof {
        assert(all.take(n as int) =~= all);
    }
    Ok(marked)
}

/// An error met on a prefix of the variants is the error of the whole list.
pub proof fn lemma_marked_error_stays(variants: Seq<VariantView>, k: int)
    requires
        0 <= k <= variants.len(),
        marked_of(variants.take(k)) is Err,
    ensures
        marked_of(variants) == marked_of(variants.take(k)),
    decreases variants.len() - k,
{
    if k < variants.len() {
        assert(variants.take(k + 1).drop_last() =~= variants.take(k));
        lemma_marked_error_stays(variants, k + 1);
    } else {
        assert(variants.take(k) =~= variants);
    }
}

} // verus!
