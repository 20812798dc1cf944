use error_level_derive::error::ExpandError;
use error_level_derive::extract::{
    has_level_path, list_level, log_level, marked_variants, unwrap_meta,
};
use error_level_derive::level::Level;
use error_level_derive::syntax::{Attribute, Meta, MetaList, NestedMeta, Path, Variant};

fn bare(name: &str) -> Path {
    Path { leading_colon: false, segments: vec![name.to_string()] }
}

fn path(leading_colon: bool, segments: &[&str]) -> Path {
    Path { leading_colon, segments: segments.iter().map(|s| s.to_string()).collect() }
}

fn list(name: &str, nested: Vec<NestedMeta>) -> MetaList {
    MetaList { path: bare(name), nested }
}

fn attr(meta: Meta) -> Attribute {
    Attribute { meta: Some(meta) }
}

fn level_attr(name: &str) -> Attribute {
    attr(Meta::List(list("level", vec![NestedMeta::Meta(bare(name))])))
}

fn variant(ident: &str, attrs: Vec<Attribute>) -> Variant {
    Variant { ident: ident.to_string(), attrs }
}

#[test]
fn get_ident_wants_one_bare_segment() {
    assert_eq!(bare("level").get_ident(), Some(&"level".to_string()));
    assert_eq!(path(true, &["level"]).get_ident(), None);
    assert_eq!(path(false, &["log", "level"]).get_ident(), None);
    assert_eq!(path(false, &[]).get_ident(), None);
}

#[test]
fn has_level_path_wants_the_bare_name_level() {
    assert!(has_level_path(&list("level", vec![])));
    assert!(!has_level_path(&list("Level", vec![])));
    assert!(!has_level_path(&list("levels", vec![])));
    assert!(!has_level_path(&list("derive", vec![NestedMeta::Meta(bare("level"))])));
    assert!(!has_level_path(&MetaList { path: path(true, &["level"]), nested: vec![] }));
    assert!(!has_level_path(&MetaList { path: path(false, &["a", "level"]), nested: vec![] }));
}

#[test]
fn unwrap_meta_hands_out_the_path() {
    let n = NestedMeta::Meta(bare("Error"));
    let p = unwrap_meta(&n).unwrap();
    assert_eq!(p.segments, vec!["Error".to_string()]);
    assert!(!p.leading_colon);
}

#[test]
fn unwrap_meta_refuses_a_literal() {
    assert_eq!(unwrap_meta(&NestedMeta::Lit).err(), Some(ExpandError::LiteralArgument));
}

#[test]
fn list_level_reads_the_first_argument_only() {
    let l = list("level", vec![NestedMeta::Meta(bare("Info")), NestedMeta::Meta(bare("Bogus"))]);
    assert_eq!(list_level(&l), Ok(Level::Info));
    let l = list("level", vec![NestedMeta::Meta(bare("Debug")), NestedMeta::Lit]);
    assert_eq!(list_level(&l), Ok(Level::Debug));
    let l = list("level", vec![NestedMeta::Lit, NestedMeta::Meta(bare("Debug"))]);
    assert_eq!(list_level(&l), Err(ExpandError::LiteralArgument));
}

#[test]
fn list_level_errors() {
    assert_eq!(list_level(&list("level", vec![])), Err(ExpandError::MissingArgument));
    assert_eq!(
        list_level(&list("level", vec![NestedMeta::Lit])),
        Err(ExpandError::LiteralArgument)
    );
    assert_eq!(
        list_level(&list("level", vec![NestedMeta::Meta(path(false, &["log", "Error"]))])),
        Err(ExpandError::NotAName)
    );
    assert_eq!(
        list_level(&list("level", vec![NestedMeta::Meta(path(true, &["Error"]))])),
        Err(ExpandError::NotAName)
    );
    assert_eq!(
        list_level(&list("level", vec![NestedMeta::Meta(bare("Critical"))])),
        Err(ExpandError::UnknownLevel)
    );
}

#[test]
fn variant_without_attributes_has_no_level() {
    assert_eq!(log_level(&variant("Ok", vec![])), Ok(None));
}

#[test]
fn each_spelling_is_recorded_as_its_own_level() {
    let cases = [
        ("No", Level::No),
        ("Trace", Level::Trace),
        ("Debug", Level::Debug),
        ("Info", Level::Info),
        ("Warn", Level::Warn),
        ("Error", Level::Error),
    ];
    for (name, level) in cases {
        assert_eq!(log_level(&variant("V", vec![level_attr(name)])), Ok(Some(level)));
    }
}

#[test]
fn other_attributes_are_passed_over() {
    let others = || {
        vec![
            attr(Meta::Path(bare("level"))),
            attr(Meta::NameValue(bare("level"))),
            attr(Meta::NameValue(bare("doc"))),
            attr(Meta::List(list("serde", vec![NestedMeta::Meta(bare("Error"))]))),
            attr(Meta::List(list("allow", vec![NestedMeta::Lit]))),
        ]
    };
    assert_eq!(log_level(&variant("V", others())), Ok(None));
    let mut with_level = others();
    with_level.push(level_attr("Warn"));
    assert_eq!(log_level(&variant("V", with_level)), Ok(Some(Level::Warn)));
}

#[test]
fn the_first_level_list_decides() {
    let v = variant("V", vec![level_attr("Error"), level_attr("Critical")]);
    assert_eq!(log_level(&v), Ok(Some(Level::Error)));
    let v = variant("V", vec![level_attr("Critical"), level_attr("Error")]);
    assert_eq!(log_level(&v), Err(ExpandError::UnknownLevel));
    let v = variant("V", vec![level_attr("Debug"), level_attr("Info")]);
    assert_eq!(log_level(&v), Ok(Some(Level::Debug)));
}

#[test]
fn malformed_attribute_in_front_is_an_error() {
    let v = variant("V", vec![Attribute { meta: None }, level_attr("Error")]);
    assert_eq!(log_level(&v), Err(ExpandError::MalformedAttribute));
    let v = variant("V", vec![Attribute { meta: None }]);
    assert_eq!(log_level(&v), Err(ExpandError::MalformedAttribute));
}

#[test]
fn malformed_attribute_behind_is_not_looked_at() {
    let v = variant("V", vec![level_attr("Error"), Attribute { meta: None }]);
    assert_eq!(log_level(&v), Ok(Some(Level::Error)));
}

#[test]
fn unknown_name_is_an_error() {
    let v = variant("V", vec![level_attr("Critical")]);
    assert_eq!(log_level(&v), Err(ExpandError::UnknownLevel));
}

#[test]
fn literal_argument_is_an_error_of_its_own() {
    let v = variant("V", vec![attr(Meta::List(list("level", vec![NestedMeta::Lit])))]);
    assert_eq!(log_level(&v), Err(ExpandError::LiteralArgument));
}

#[test]
fn empty_level_list_is_an_error() {
    let v = variant("V", vec![attr(Meta::List(list("level", vec![])))]);
    assert_eq!(log_level(&v), Err(ExpandError::MissingArgument));
}

#[test]
fn marked_variants_of_nothing_is_empty() {
    assert!(marked_variants(&vec![]).unwrap().is_empty());
}

#[test]
fn unannotated_variants_are_left_out() {
    let variants = vec![
        variant("A", vec![]),
        variant("B", vec![attr(Meta::NameValue(bare("doc")))]),
        variant("C", vec![attr(Meta::Path(bare("default")))]),
    ];
    assert!(marked_variants(&variants).unwrap().is_empty());
}

#[test]
fn marked_variants_keep_declaration_order() {
    let variants = vec![
        variant("Ok", vec![]),
        variant("Bad", vec![level_attr("Error")]),
        variant("Quiet", vec![level_attr("No")]),
        variant("Plain", vec![attr(Meta::NameValue(bare("doc")))]),
        variant("Sketchy", vec![attr(Meta::NameValue(bare("doc"))), level_attr("Warn")]),
        variant("Chatty", vec![level_attr("Trace")]),
    ];
    let marked = marked_variants(&variants).unwrap();
    let got: Vec<(String, Level)> =
        marked.iter().map(|m| (m.variant_id.clone(), m.level)).collect();
    assert_eq!(
        got,
        vec![
            ("Bad".to_string(), Level::Error),
            ("Quiet".to_string(), Level::No),
            ("Sketchy".to_string(), Level::Warn),
            ("Chatty".to_string(), Level::Trace),
        ]
    );
}

#[test]
fn five_severities_stay_apart_in_the_record() {
    let names = ["Trace", "Debug", "Info", "Warn", "Error"];
    let variants: Vec<Variant> =
        names.iter().map(|n| variant(n, vec![level_attr(n)])).collect();
    let marked = marked_variants(&variants).unwrap();
    assert_eq!(marked.len(), 5);
    for i in 0..5 {
        for j in 0..5 {
            assert_eq!(marked[i].level == marked[j].level, i == j);
        }
    }
    assert_eq!(marked[0].level, Level::Trace);
    assert_eq!(marked[1].level, Level::Debug);
    assert_eq!(marked[2].level, Level::Info);
    assert_eq!(marked[3].level, Level::Warn);
    assert_eq!(marked[4].level, Level::Error);
}

#[test]
fn the_first_bad_variant_gives_the_error() {
    let variants = vec![
        variant("A", vec![level_attr("Error")]),
        variant("B", vec![attr(Meta::List(list("level", vec![NestedMeta::Lit])))]),
        variant("C", vec![level_attr("Critical")]),
    ];
    assert_eq!(marked_variants(&variants).err(), Some(ExpandError::LiteralArgument));
    let variants = vec![
        variant("A", vec![level_attr("Critical")]),
        variant("B", vec![attr(Meta::List(list("level", vec![NestedMeta::Lit])))]),
    ];
    assert_eq!(marked_variants(&variants).err(), Some(ExpandError::UnknownLevel));
    let variants = vec![variant("A", vec![]), variant("B", vec![Attribute { meta: None }])];
    assert_eq!(marked_variants(&variants).err(), Some(ExpandError::MalformedAttribute));
}
