//! What holds of every expansion.

use vstd::prelude::*;
use crate::error::ExpandError;
use crate::extract::{
    decides, decision, is_level_list, lemma_marked_error_stays, level_of_attrs, marked_of,
    MarkedView,
};
use crate::level::{level_named, lemma_spelling_resolves, Level};
use crate::synth::{expansion, impl_text, text_view};
use crate::syntax::{
    AttributeView, DataView, DeriveInput, DeriveInputView, MetaListView, MetaView,
    NestedMetaView, PathView, VariantView,
};

verus! {

/// The path that consists of the bare name `name`.
pub open spec fn bare(name: Seq<char>) -> PathView {
    PathView { leading_colon: false, segments: seq![name] }
}

/// Whether `list` is `level(name, ..)`: a list called `level` whose first
/// argument is the bare name `name`.
pub open spec fn annotates(list: MetaListView, name: Seq<char>) -> bool {
    &&& is_level_list(list)
    &&& list.nested.len() > 0
    &&& list.nested[0] == NestedMetaView::Meta(bare(name))
}

/// Whether `list` is `level(<literal>, ..)`.
pub open spec fn annotates_literal(list: MetaListView) -> bool {
    &&& is_level_list(list)
    &&& list.nested.len() > 0
    &&& list.nested[0] == NestedMetaView::Lit
}

/// Whether `list` is the attribute that decides for `v`: it stands at `k`, and
/// every attribute in front of it forms a meta item that is no `level(..)`.
pub open spec fn consulted(v: VariantView, k: int, list: MetaListView) -> bool {
    &&& 0 <= k < v.attrs.len()
    &&& v.attrs[k].meta == Some(MetaView::List(list))
    &&& is_level_list(list)
    &&& forall|j: int| 0 <= j < k ==> !decides(#[trigger] v.attrs[j])
}

/// The variants of an enum; of another definition, none.
pub open spec fn variants_of(ast: DeriveInputView) -> Seq<VariantView> {
    match ast.data {
        DataView::Enum(data) => data.variants,
        _ => Seq::empty(),
    }
}

/// The scan of a variant's attributes ends at the first one that decides, with
/// what that one gives.
pub proof fn lemma_first_deciding(attrs: Seq<AttributeView>, k: int)
    requires
        0 <= k < attrs.len(),
        decides(attrs[k]),
        forall|j: int| 0 <= j < k ==> !decides(#[trigger] attrs[j]),
    ensures
        level_of_attrs(attrs) == decision(attrs[k]),
    decreases k,
{
    if k > 0 {
        let rest = attrs.drop_first();
        assert(!decides(attrs[0]));
        assert(rest[k - 1] == attrs[k]);
        assert forall|j: int| 0 <= j < k - 1 implies !decides(#[trigger] rest[j]) by {
            assert(rest[j] == attrs[j + 1]);
        }
        lemma_first_deciding(rest, k - 1);
    }
}

/// Where no attribute decides, the variant has no severity and no error.
pub proof fn lemma_none_deciding(attrs: Seq<AttributeView>)
    requires
        forall|j: int| 0 <= j < attrs.len() ==> !decides(#[trigger] attrs[j]),
    ensures
        level_of_attrs(attrs) == Ok::<Option<Level>, ExpandError>(None),
    decreases attrs.len(),
{
    if attrs.len() > 0 {
        let rest = attrs.drop_first();
        assert(!decides(attrs[0]));
        assert forall|j: int| 0 <= j < rest.len() implies !decides(#[trigger] rest[j]) by {
            assert(rest[j] == attrs[j + 1]);
        }
        lemma_none_deciding(rest);
    }
}

/// The record of a variant: its name with its severity, if its attributes
/// give it one.
pub open spec fn mark(v: VariantView) -> Option<MarkedView> {
    match level_of_attrs(v.attrs) {
        Ok(Some(level)) => Some(MarkedView { level: level, variant_id: v.ident }),
        _ => None,
    }
}

/// Where no variant gives an error, the result is the records of the
/// annotated variants, in the order in which the variants are declared.
pub proof fn lemma_no_error(variants: Seq<VariantView>)
    requires
        forall|i: int| 0 <= i < variants.len() ==> level_of_attrs(
            (#[trigger] variants[i]).attrs,
        ) is Ok,
    ensures
        marked_of(variants) == Ok::<Seq<MarkedView>, ExpandError>(
            variants.filter_map(|v: VariantView| mark(v)),
        ),
    decreases variants.len(),
{
    if variants.len() > 0 {
        let front = variants.drop_last();
        assert forall|i: int| 0 <= i < front.len() implies level_of_attrs(
            (#[trigger] front[i]).attrs,
        ) is Ok by {
            assert(front[i] == variants[i]);
        }
        lemma_no_error(front);
        let last = variants[variants.len() - 1];
        assert(level_of_attrs(last.attrs) is Ok);
        let listed = front.filter_map(|v: VariantView| mark(v));
        if let Some(m) = mark(last) {
            assert(listed + seq![m] =~= listed.push(m));
        }
    }
}

/// The first variant whose attributes give an error decides for the whole
/// list: its error is the result.
pub proof fn lemma_first_error(variants: Seq<VariantView>, k: int)
    requires
        0 <= k < variants.len(),
        level_of_attrs(variants[k].attrs) is Err,
        forall|i: int| 0 <= i < k ==> level_of_attrs((#[trigger] variants[i]).attrs) is Ok,
    ensures
        marked_of(variants) == Err::<Seq<MarkedView>, ExpandError>(
            level_of_attrs(variants[k].attrs)->Err_0,
        ),
{
    assert forall|i: int| 0 <= i < k implies level_of_attrs(
        (#[trigger] variants.take(k)[i]).attrs,
    ) is Ok by {
        assert(variants.take(k)[i] == variants[i]);
    }
    lemma_no_error(variants.take(k));
    assert(variants.take(k + 1).drop_last() =~= variants.take(k));
    assert(variants.take(k + 1).last() == variants[k]);
    lemma_marked_error_stays(variants, k + 1);
}

/// An error in the attributes of any one variant aborts the expansion of the
/// whole enum.
pub proof fn lemma_error_aborts(ast: DeriveInputView, k: int)
    requires
        0 <= k < variants_of(ast).len(),
        level_of_attrs(variants_of(ast)[k].attrs) is Err,
    ensures
        expansion(ast) is Err,
{
    let variants = variants_of(ast);
    let first = choose|i: int|
        0 <= i <= k && level_of_attrs(variants[i].attrs) is Err && forall|j: int|
            0 <= j < i ==> level_of_attrs((#[trigger] variants[j]).attrs) is Ok;
    lemma_least_error(variants, k);
    lemma_first_error(variants, first);
}

/// Among the variants up to one that gives an error there is a first that
/// does.
proof fn lemma_least_error(variants: Seq<VariantView>, k: int)
    requires
        0 <= k < variants.len(),
        level_of_attrs(variants[k].attrs) is Err,
    ensures
        exists|i: int|
            0 <= i <= k && level_of_attrs(variants[i].attrs) is Err && forall|j: int|
                0 <= j < i ==> level_of_attrs((#[trigger] variants[j]).attrs) is Ok,
    decreases k,
{
    if exists|m: int| 0 <= m < k && level_of_attrs(variants[m].attrs) is Err {
        let m = choose|m: int| 0 <= m < k && level_of_attrs(variants[m].attrs) is Err;
        lemma_least_error(variants, m);
    } else {
        assert(forall|j: int| 0 <= j < k ==> level_of_attrs((#[trigger] variants[j]).attrs) is Ok);
    }
}

/// An enum without any `level(..)` annotation, all of whose attributes form
/// meta items, still gets its implementation: having no annotation is no
/// error.
pub proof fn lemma_unannotated_enum_expands(ast: DeriveInputView)
    requires
        ast.data is Enum,
        forall|i: int, j: int|
            0 <= i < variants_of(ast).len() && 0 <= j < variants_of(ast)[i].attrs.len()
                ==> !decides(#[trigger] variants_of(ast)[i].attrs[j]),
    ensures
        expansion(ast) == Ok::<Seq<char>, ExpandError>(impl_text(ast.ident)),
        marked_of(variants_of(ast)) == Ok::<Seq<MarkedView>, ExpandError>(Seq::empty()),
{
    lemma_nothing_marked(variants_of(ast));
}

/// Variants none of which has an attribute that decides give an empty list.
proof fn lemma_nothing_marked(variants: Seq<VariantView>)
    requires
        forall|i: int, j: int|
            0 <= i < variants.len() && 0 <= j < variants[i].attrs.len() ==> !decides(
                #[trigger] variants[i].attrs[j],
            ),
    ensures
        marked_of(variants) == Ok::<Seq<MarkedView>, ExpandError>(Seq::empty()),
    decreases variants.len(),
{
    if variants.len() > 0 {
        let front = variants.drop_last();
        let last = variants.last();
        assert forall|i: int, j: int|
            0 <= i < front.len() && 0 <= j < front[i].attrs.len() implies !decides(
            #[trigger] front[i].attrs[j],
        ) by {
            assert(front[i] == variants[i]);
        }
        lemma_nothing_marked(front);
        assert(last == variants[variants.len() - 1]);
        lemma_none_deciding(last.attrs);
    }
}

/// A variant whose deciding attribute is `level(<spelling>)` is recorded with
/// the severity so spelled. Six spellings give six severities: none of the
/// five that generated code writes alike is taken for another here.
pub proof fn lemma_annotation_recorded(v: VariantView, k: int, list: MetaListView, level: Level)
    requires
        consulted(v, k, list),
        annotates(list, level.spelling()),
    ensures
        level_of_attrs(v.attrs) == Ok::<Option<Level>, ExpandError>(Some(level)),
        marked_of(seq![v]) == Ok::<Seq<MarkedView>, ExpandError>(
            seq![MarkedView { level: level, variant_id: v.ident }],
        ),
{
    lemma_spelling_resolves(level);
    assert(bare(level.spelling()).get_ident() == Some(level.spelling()));
    lemma_first_deciding(v.attrs, k);
    let one = seq![v];
    assert(one.drop_last() =~= Seq::<VariantView>::empty());
    assert(one.last() == v);
    assert(marked_of(one.drop_last()) == Ok::<Seq<MarkedView>, ExpandError>(Seq::empty()));
    assert(Seq::<MarkedView>::empty().push(MarkedView { level: level, variant_id: v.ident })
        =~= seq![MarkedView { level: level, variant_id: v.ident }]);
}

/// Two different severities are never resolved from one name.
pub proof fn lemma_levels_stay_apart(a: Level, b: Level)
    requires
        a != b,
    ensures
        a.spelling() != b.spelling(),
        level_named(a.spelling()) != level_named(b.spelling()),
{
    lemma_spelling_resolves(a);
    lemma_spelling_resolves(b);
}

/// A variant whose deciding attribute names something other than the six
/// spellings aborts the expansion; no severity is made up for it.
pub proof fn lemma_unknown_name_aborts(
    ast: DeriveInputView,
    i: int,
    k: int,
    list: MetaListView,
    name: Seq<char>,
)
    requires
        0 <= i < variants_of(ast).len(),
        consulted(variants_of(ast)[i], k, list),
        annotates(list, name),
        level_named(name).is_none(),
    ensures
        level_of_attrs(variants_of(ast)[i].attrs) == Err::<Option<Level>, ExpandError>(
            ExpandError::UnknownLevel,
        ),
        expansion(ast) is Err,
{
    assert(bare(name).get_ident() == Some(name));
    lemma_first_deciding(variants_of(ast)[i].attrs, k);
    lemma_error_aborts(ast, i);
}

/// A variant whose deciding attribute has a literal for its argument aborts
/// the expansion, with an error of its own that is not the one for an unknown
/// name.
pub proof fn lemma_literal_aborts(ast: DeriveInputView, i: int, k: int, list: MetaListView)
    requires
        0 <= i < variants_of(ast).len(),
        consulted(variants_of(ast)[i], k, list),
        annotates_literal(list),
    ensures
        level_of_attrs(variants_of(ast)[i].attrs) == Err::<Option<Level>, ExpandError>(
            ExpandError::LiteralArgument,
        ),
        expansion(ast) is Err,
        ExpandError::LiteralArgument != ExpandError::UnknownLevel,
        ExpandError::LiteralArgument.message_text() != ExpandError::UnknownLevel.message_text(),
{
    lemma_first_deciding(variants_of(ast)[i].attrs, k);
    lemma_error_aborts(ast, i);
    reveal_strlit("nested argument list should not be a rust literal but a structured meta item");
    reveal_strlit("options are only: No, Trace, Debug, Info, Warn or Error");
    assert(ExpandError::LiteralArgument.message_text()[0] == 'n');
    assert(ExpandError::UnknownLevel.message_text()[0] == 'o');
}

/// Expanding the same definition twice gives the same text, or the same
/// error: whatever two runs return for inputs with one view is equal.
pub proof fn lemma_same_input_same_output(
    a: DeriveInput,
    b: DeriveInput,
    first: Result<String, ExpandError>,
    second: Result<String, ExpandError>,
)
    requires
        a@ == b@,
        text_view(first) == expansion(a@),
        text_view(second) == expansion(b@),
    ensures
        text_view(first) == text_view(second),
{
}

} // verus!
