//! Writing the implementation of `ErrorLevel` for an enum.

use vstd::prelude::*;
use vstd::string::*;
use crate::error::ExpandError;
use crate::extract::{marked_of, marked_variants};
use crate::level::Level;
use crate::syntax::{Data, DataEnum, DataView, DeriveInput, DeriveInputView};

verus! {

/// The text in front of the type's name.
pub const IMPL_OPENS: &'static str = "impl ErrorLevel for ";

/// From the type's name to the value of the binding `a`.
pub const BODY_OPENS: &'static str =
    " {\n    fn error_level(&self) -> Option<log::Level> {\n        let test5 = 5.0;\n        let a = ";

/// From the value of `a` to the items of the array `b`.
pub const THIRD_BINDING: &'static str = ";\n        let b = [";

/// From the items of `b` to the name in the greeting.
pub const GREETING_OPENS: &'static str =
    "];\n        println!(\"Hello, Macro! My name is {}!\", stringify!(";

/// From the name in the greeting to the end.
pub const BODY_CLOSES: &'static str = "));\n        Some(log::Level::Warn)\n    }\n}\n";

/// All that stands between the two places of the type's name.
pub const BODY: &'static str =
    " {\n    fn error_level(&self) -> Option<log::Level> {\n        let test5 = 5.0;\n        let a = Some(log::Level::Trace);\n        let b = [Some(log::Level::Trace), Some(log::Level::Trace)];\n        println!(\"Hello, Macro! My name is {}!\", stringify!(";

/// The renderings of `levels` as the items of a list: in their order, with a
/// comma and a blank between one and the next.
pub open spec fn renderings(levels: Seq<Level>) -> Seq<char>
    decreases levels.len(),
{
    if levels.len() == 0 {
        Seq::empty()
    } else if levels.len() == 1 {
        levels[0].rendering()
    } else {
        renderings(levels.drop_last()) + ", "@ + levels.last().rendering()
    }
}

/// The text of the implementation for the type called `name`.
///
/// It is one `impl` item with one method. The body of `error_level` does not
/// look at `self`: it ends in `Some(log::Level::Warn)` for every variant,
/// annotated or not. In front of that stand three bindings that nothing
/// uses (a number, one severity, and an array of two) and a greeting; none of
/// them bears on the result.
pub open spec fn impl_text(name: Seq<char>) -> Seq<char> {
    IMPL_OPENS@ + name + BODY_OPENS@ + Level::Trace.rendering() + THIRD_BINDING@ + renderings(
        seq![Level::Trace, Level::Trace],
    ) + GREETING_OPENS@ + name + BODY_CLOSES@
}

/// The text is the same for every type but for its name, which stands in it
/// twice.
pub proof fn lemma_impl_text_is_fixed(name: Seq<char>)
    ensures
        impl_text(name) == IMPL_OPENS@ + name + BODY@ + name + BODY_CLOSES@,
{
    reveal_strlit(
        " {\n    fn error_level(&self) -> Option<log::Level> {\n        let test5 = 5.0;\n        let a = Some(log::Level::Trace);\n        let b = [Some(log::Level::Trace), Some(log::Level::Trace)];\n        println!(\"Hello, Macro! My name is {}!\", stringify!(",
    );
    reveal_strlit(
        " {\n    fn error_level(&self) -> Option<log::Level> {\n        let test5 = 5.0;\n        let a = ",
    );
    reveal_strlit("Some(log::Level::Trace)");
    reveal_strlit(";\n        let b = [");
    reveal_strlit(", ");
    reveal_strlit("];\n        println!(\"Hello, Macro! My name is {}!\", stringify!(");
    let trace = Level::Trace.rendering();
    let two = seq![Level::Trace, Level::Trace];
    let one = seq![Level::Trace];
    assert(two.drop_last() =~= one);
    assert(renderings(one) =~= trace);
    assert(renderings(two) =~= trace + ", "@ + trace);
    assert(BODY@ =~= BODY_OPENS@ + trace + THIRD_BINDING@ + renderings(two) + GREETING_OPENS@);
    assert(impl_text(name) =~= IMPL_OPENS@ + name + BODY@ + name + BODY_CLOSES@);
}

/// What expanding a definition gives: the text of the implementation, for an
/// enum whose annotations are all in order, and else the first error.
pub open spec fn expansion(ast: DeriveInputView) -> Result<Seq<char>, ExpandError> {
    match ast.data {
        DataView::Enum(data) => match marked_of(data.variants) {
            Ok(_) => Ok(impl_text(ast.ident)),
            Err(e) => Err(e),
        },
        _ => Err(ExpandError::NotAnEnum),
    }
}

/// The view of generated text, or the error in its place.
pub open spec fn text_view(text: Result<String, ExpandError>) -> Result<Seq<char>, ExpandError> {
    match text {
        Ok(t) => Ok(t@),
        Err(e) => Err(e),
    }
}

/// The body of the enum that `data` is; a struct or a union is refused.
pub fn unwrap_enum(data: &Data) -> (body: Result<&DataEnum, ExpandError>)
    ensures
        match body {
            Ok(v) => data@ == DataView::Enum(v@),
            Err(e) => !(data@ is Enum) && e == ExpandError::NotAnEnum,
        },
{
    match data {
        Data::Enum(v) => Ok(v),
        _ => Err(ExpandError::NotAnEnum),
    }
}

/// Appends the renderings of `levels` to `tokens` as the items of a list:
/// a comma and a blank stand between one and the next.
pub fn append_levels(levels: &Vec<Level>, tokens: &mut String)
    ensures
        final(tokens)@ == old(tokens)@ + renderings(levels@),
{
    let ghost start = tokens@;
    let n: usize = levels.len();
    let mut i: usize = 0;
    proof {
        assert(renderings(levels@.take(0)) =~= Seq::empty());
        assert(start + Seq::<char>::empty() =~= start);
    }
    while i < n
        invariant
            i <= n,
            n == levels@.len(),
            tokens@ == start + renderings(levels@.take(i as int)),
        decreases n - i,
    {
        proof {
            assert(levels@.take(i + 1).drop_last() =~= levels@.take(i as int));
            assert(levels@.take(i + 1).last() == levels@[i as int]);
        }
        if i > 0 {
            tokens.append(", ");
        }
        levels[i].to_tokens(tokens);
        proof {
            assert(tokens@ =~= start + renderings(levels@.take(i + 1)));
        }
        i += 1;
    }
    proof {
        assert(levels@.take(n as int) =~= levels@);
    }
}

/// Writes the implementation of `ErrorLevel` for the enum `ast`.
///
/// The annotations of all variants are read first, and the first error among
/// them is returned. The text written does not depend on them: see
/// [`impl_text`]. For a type whose name is an identifier it is one `impl` item
/// of Rust.
pub fn impl_error_level_macro(ast: &DeriveInput) -> (gen: Result<String, ExpandError>)
    ensures
        text_view(gen) == expansion(ast@),
{
    let name = &ast.ident;
    let variants = match unwrap_enum(&ast.data) {
        Ok(data) => &data.variants,
        Err(e) => { return Err(e); },
    };
    match marked_variants(variants) {
        Ok(_) => {},
        Err(e) => { return Err(e); },
    }
    let test_level = Level::Trace;
    let test_iter = vec![Level::Trace, Level::Trace];
    let mut gen = String::from_str(IMPL_OPENS);
    gen.append(name.as_str());
    gen.append(BODY_OPENS);
    test_level.to_tokens(&mut gen);
    gen.append(THIRD_BINDING);
    append_levels(&test_iter, &mut gen);
    gen.append(GREETING_OPENS);
    gen.append(name.as_str());
    gen.append(BODY_CLOSES);
    proof {
        assert(test_iter@ =~= seq![Level::Trace, Level::Trace]);
        assert(gen@ =~= impl_text(ast@.ident));
    }
    Ok(gen)
}

/// Expands a definition as it came out of the parser: `None` stands for input
/// that is no type definition.
pub fn log_level_derive(input: Option<&DeriveInput>) -> (gen: Result<String, ExpandError>)
    ensures
        text_view(gen) == match input {
            Some(ast) => expansion(ast@),
            None => Err(ExpandError::Syntax),
        },
{
    match input {
        Some(ast) => impl_error_level_macro(ast),
        None => Err(ExpandError::Syntax),
    }
}

} // verus!
