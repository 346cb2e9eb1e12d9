use enumerate_validator::context::{FieldRef, MessageFormat, RenameMap};
use enumerate_validator::diagnostics::{Diagnostic, DiagnosticKind};
use enumerate_validator::enumerate::{
    extract_generic_enumerate_validator_from_list,
    extract_generic_enumerate_validator_from_name_value,
    inner_extract_generic_enumerate_validator,
};
use enumerate_validator::syntax::{
    Expr, ExprArray, ListArgs, Lit, LitKind, MetaList, MetaNameValue, NestedMeta, Span,
};

fn sp(id: usize) -> Span {
    Span { id }
}

fn int_lit(value: i64, id: usize) -> Lit {
    Lit { kind: LitKind::Int(value), span: sp(id) }
}

fn level_field() -> FieldRef {
    FieldRef {
        name: String::from("level"),
        ident: String::from("self.level"),
        key: String::from("level"),
        errors_variable: String::from("__errors"),
    }
}

fn message_format() -> MessageFormat {
    MessageFormat { tokens: String::from("FormatDefault::format_default") }
}

fn one_two_three_list() -> MetaList {
    MetaList {
        path_span: sp(0),
        span: sp(1),
        args: ListArgs::Parsed(vec![
            NestedMeta::Lit(int_lit(1, 2)),
            NestedMeta::Lit(int_lit(2, 3)),
            NestedMeta::Lit(int_lit(3, 4)),
        ]),
    }
}

#[test]
fn list_form_emits_check_with_default_key() {
    let field = level_field();
    let rename_map = RenameMap::new();
    let result = extract_generic_enumerate_validator_from_list(
        &field,
        one_two_three_list(),
        message_format(),
        &rename_map,
    );
    let validator = result.expect("a well-formed list emits a fragment");
    assert_eq!(validator.field_ident, "self.level");
    assert_eq!(
        validator.candidates,
        vec![int_lit(1, 2), int_lit(2, 3), int_lit(3, 4)]
    );
    assert_eq!(validator.error_key, "level");
    assert_eq!(validator.errors_variable, "__errors");
    assert_eq!(validator.message_format, message_format());
}

#[test]
fn name_value_form_emits_check_with_renamed_key() {
    let field = level_field();
    let mut rename_map = RenameMap::new();
    rename_map.insert(String::from("level"), String::from("lvl"));
    let name_value = MetaNameValue {
        value: Expr::Array(ExprArray {
            elems: vec![
                Expr::Lit(int_lit(1, 2)),
                Expr::Lit(int_lit(2, 3)),
                Expr::Lit(int_lit(3, 4)),
            ],
            span: sp(1),
        }),
    };
    let result = extract_generic_enumerate_validator_from_name_value(
        &field,
        name_value,
        message_format(),
        &rename_map,
    );
    let validator = result.expect("a well-formed array emits a fragment");
    assert_eq!(
        validator.candidates,
        vec![int_lit(1, 2), int_lit(2, 3), int_lit(3, 4)]
    );
    assert_eq!(validator.error_key, "lvl");
    assert_eq!(validator.field_ident, "self.level");
}

#[test]
fn empty_list_emits_no_fragment() {
    let field = level_field();
    let rename_map = RenameMap::new();
    let input = MetaList { path_span: sp(0), span: sp(1), args: ListArgs::Parsed(vec![]) };
    let result = extract_generic_enumerate_validator_from_list(
        &field,
        input,
        message_format(),
        &rename_map,
    );
    assert_eq!(
        result.err().expect("an empty list is refused"),
        vec![Diagnostic { kind: DiagnosticKind::MissingItems, span: sp(0) }]
    );
}

#[test]
fn non_array_name_value_emits_no_fragment() {
    let field = level_field();
    let rename_map = RenameMap::new();
    let name_value = MetaNameValue {
        value: Expr::Lit(Lit { kind: LitKind::Str(String::from("oops")), span: sp(4) }),
    };
    let result = extract_generic_enumerate_validator_from_name_value(
        &field,
        name_value,
        message_format(),
        &rename_map,
    );
    assert_eq!(
        result.err().expect("a non-array binding is refused"),
        vec![Diagnostic { kind: DiagnosticKind::NeedArray, span: sp(4) }]
    );
}

#[test]
fn rename_of_another_field_does_not_apply() {
    let field = level_field();
    let mut rename_map = RenameMap::new();
    rename_map.insert(String::from("priority"), String::from("prio"));
    let result = extract_generic_enumerate_validator_from_list(
        &field,
        one_two_three_list(),
        message_format(),
        &rename_map,
    );
    let validator = result.expect("a well-formed list emits a fragment");
    assert_eq!(validator.error_key, "level");
}

#[test]
fn emitter_keeps_validated_literals_verbatim() {
    let field = level_field();
    let rename_map = RenameMap::new();
    let lits = vec![Lit { kind: LitKind::Verbatim(String::from("1.5")), span: sp(2) }];
    let result = inner_extract_generic_enumerate_validator(
        &field,
        lits.clone(),
        message_format(),
        &rename_map,
    );
    let validator = result.expect("the emitter itself never fails");
    assert_eq!(validator.candidates, lits);
}

#[test]
fn rename_map_lookup() {
    let mut rename_map = RenameMap::new();
    assert!(!rename_map.contains(&String::from("level")));
    rename_map.insert(String::from("level"), String::from("lvl"));
    rename_map.insert(String::from("priority"), String::from("prio"));
    assert!(rename_map.contains(&String::from("level")));
    assert_eq!(rename_map.get(&String::from("level")), Some(String::from("lvl")));
    assert_eq!(rename_map.get(&String::from("priority")), Some(String::from("prio")));
    assert_eq!(rename_map.get(&String::from("severity")), None);
}
