//! Extraction and emission for the `enumerate` constraint.
//!
//! Either accepted shape of the constraint is normalized into the ordered
//! sequence of literals it lists. The list form aggregates every violation
//! it finds in one pass; the name/value form checks the outer shape first
//! and stops at the first bad element. A well-formed constraint then
//! becomes one [`Validator`]: the structured form of the runtime check the
//! surrounding generator renders into code.

use vstd::prelude::*;

use crate::context::{FieldRef, MessageFormat, RenameMap};
use crate::diagnostics::{Diagnostic, DiagnosticKind, Errors};
use crate::syntax::{Expr, ListArgs, Lit, MetaList, MetaNameValue, NestedMeta};

verus! {

/// The ordered literal set of one constraint, in source order.
pub type Lits = Vec<Lit>;

/// The generated validation fragment, as structured data. When rendered
/// and executed it checks the field's runtime value for membership in
/// `candidates` and, on failure, appends an error — rendered according to
/// `message_format` — to the bucket `error_key` of the collection named by
/// `errors_variable`.
#[derive(Debug)]
pub struct Validator {
    /// The identifier whose runtime value the check examines.
    pub field_ident: String,
    /// The candidate literal set, in source order.
    pub candidates: Lits,
    /// The serialized key the failure is recorded under.
    pub error_key: String,
    /// The identifier of the per-field error collection.
    pub errors_variable: String,
    /// The selector, forwarded verbatim, that decides how a failure is
    /// rendered.
    pub message_format: MessageFormat,
}

/// The literals among `items`, in source order.
pub open spec fn lits_of(items: Seq<NestedMeta>) -> Seq<Lit>
    decreases items.len(),
{
    if items.len() == 0 {
        Seq::empty()
    } else {
        let rest = lits_of(items.drop_last());
        match items.last() {
            NestedMeta::Lit(l) => rest.push(l),
            _ => rest,
        }
    }
}

/// One diagnostic for each non-literal item of `items`, in source order.
pub open spec fn flaws_of(items: Seq<NestedMeta>) -> Seq<Diagnostic>
    decreases items.len(),
{
    if items.len() == 0 {
        Seq::empty()
    } else {
        let rest = flaws_of(items.drop_last());
        match items.last() {
            NestedMeta::Lit(_) => rest,
            NestedMeta::Meta(s) => rest.push(
                Diagnostic { kind: DiagnosticKind::LiteralOnly, span: s },
            ),
            NestedMeta::Closure(s) => rest.push(
                Diagnostic { kind: DiagnosticKind::ClosureNotSupported, span: s },
            ),
        }
    }
}

/// Every diagnostic the list form produces, in discovery order: one parse
/// failure if the argument tokens are malformed; otherwise a missing-items
/// diagnostic if the list is empty, followed by one diagnostic per
/// non-literal item.
pub open spec fn list_flaws(meta_list: MetaList) -> Seq<Diagnostic> {
    match meta_list.args {
        ListArgs::Malformed => seq![
            Diagnostic { kind: DiagnosticKind::ParseFailure, span: meta_list.span },
        ],
        ListArgs::Parsed(items) => {
            let missing: Seq<Diagnostic> = if items@.len() == 0 {
                seq![Diagnostic { kind: DiagnosticKind::MissingItems, span: meta_list.path_span }]
            } else {
                Seq::empty()
            };
            missing + flaws_of(items@)
        },
    }
}

/// The literal set the list form yields when it is well-formed.
pub open spec fn list_lits(meta_list: MetaList) -> Seq<Lit> {
    match meta_list.args {
        ListArgs::Malformed => Seq::empty(),
        ListArgs::Parsed(items) => lits_of(items@),
    }
}

/// Exactly what extraction from the list form returns: the full literal
/// set when no diagnostic arises, and all diagnostics, in discovery order,
/// otherwise.
pub open spec fn list_extraction_post(meta_list: MetaList, r: Result<Lits, Errors>) -> bool {
    match r {
        Ok(lits) => list_flaws(meta_list).len() == 0 && lits@ == list_lits(meta_list),
        Err(errors) => list_flaws(meta_list).len() > 0 && errors@ == list_flaws(meta_list),
    }
}

/// Normalize the list form into its literal set, collecting every
/// violation across the whole list in one pass.
pub fn get_enumerate_from_list(meta_list: MetaList) -> (r: Result<Lits, Errors>)
    ensures
        list_extraction_post(meta_list, r),
{
    let ghost ml: MetaList = meta_list;
    let mut errors: Errors = Vec::new();
    let mut enumerate: Lits = Vec::new();
    let MetaList { path_span, span, args } = meta_list;
    let mut rest: Vec<NestedMeta> = match args {
        ListArgs::Parsed(items) => items,
        ListArgs::Malformed => {
            errors.push(Diagnostic { kind: DiagnosticKind::ParseFailure, span });
            proof {
                assert(errors@ =~= list_flaws(ml));
            }
            return Err(errors);
        },
    };
    if rest.len() == 0 {
        errors.push(Diagnostic { kind: DiagnosticKind::MissingItems, span: path_span });
    }
    let ghost orig: Seq<NestedMeta> = rest@;
    let ghost missing: Seq<Diagnostic> = errors@;
    let ghost mut i: int = 0;
    proof {
        assert(errors@ =~= missing + flaws_of(orig.take(0)));
        assert(enumerate@ =~= lits_of(orig.take(0)));
        assert(rest@ =~= orig.skip(0));
    }
    while rest.len() != 0
        invariant
            0 <= i,
            i + rest@.len() == orig.len(),
            rest@ == orig.skip(i),
            enumerate@ == lits_of(orig.take(i)),
            errors@ == missing + flaws_of(orig.take(i)),
        decreases rest@.len(),
    {
        proof {
            assert(orig.skip(i)[0] == orig[i]);
            assert(orig.skip(i).remove(0) =~= orig.skip(i + 1));
            assert(orig.take(i + 1).drop_last() =~= orig.take(i));
            assert(orig.take(i + 1).last() == orig[i]);
        }
        let item = rest.remove(0);
        match item {
            NestedMeta::Lit(lit) => enumerate.push(lit),
            NestedMeta::Meta(s) => errors.push(
                Diagnostic { kind: DiagnosticKind::LiteralOnly, span: s },
            ),
            NestedMeta::Closure(s) => errors.push(
                Diagnostic { kind: DiagnosticKind::ClosureNotSupported, span: s },
            ),
        }
        proof {
            i = i + 1;
            assert(enumerate@ =~= lits_of(orig.take(i)));
            assert(errors@ =~= missing + flaws_of(orig.take(i)));
        }
    }
    proof {
        assert(orig.take(i) =~= orig);
        assert(list_flaws(ml) == missing + flaws_of(orig));
    }
    if errors.len() == 0 {
        Ok(enumerate)
    } else {
        Err(errors)
    }
}

/// Every element of `elems` is a plain literal.
pub open spec fn all_literals(elems: Seq<Expr>) -> bool {
    forall|i: int| 0 <= i < elems.len() ==> elems[i] is Lit
}

/// The literal each element of an all-literal array carries.
pub open spec fn elem_lits(elems: Seq<Expr>) -> Seq<Lit> {
    Seq::new(elems.len(), |i: int| elems[i]->Lit_0)
}

/// The position of the first non-literal element.
pub open spec fn first_non_literal(elems: Seq<Expr>) -> int
    decreases elems.len(),
{
    if elems.len() == 0 {
        0
    } else if !(elems.first() is Lit) {
        0
    } else {
        1 + first_non_literal(elems.drop_first())
    }
}

proof fn lemma_first_non_literal_at(elems: Seq<Expr>, k: int)
    requires
        0 <= k < elems.len(),
        !(elems[k] is Lit),
        forall|j: int| 0 <= j < k ==> elems[j] is Lit,
    ensures
        first_non_literal(elems) == k,
    decreases k,
{
    if k > 0 {
        assert(elems[0] is Lit);
        assert(elems.drop_first()[k - 1] == elems[k]);
        assert forall|j: int| 0 <= j < k - 1 implies elems.drop_first()[j] is Lit by {
            assert(elems.drop_first()[j] == elems[j + 1]);
        }
        lemma_first_non_literal_at(elems.drop_first(), k - 1);
    }
}

/// Every diagnostic the name/value form produces: one need-array
/// diagnostic when the bound expression is not an array, one literal-only
/// diagnostic at the first non-literal element otherwise, and none for a
/// well-formed array.
pub open spec fn name_value_flaws(name_value: MetaNameValue) -> Seq<Diagnostic> {
    match name_value.value {
        Expr::Array(array) => if all_literals(array.elems@) {
            Seq::empty()
        } else {
            seq![
                Diagnostic {
                    kind: DiagnosticKind::LiteralOnly,
                    span: array.elems@[first_non_literal(array.elems@)].spec_span(),
                },
            ]
        },
        _ => seq![
            Diagnostic { kind: DiagnosticKind::NeedArray, span: name_value.value.spec_span() },
        ],
    }
}

/// The literal set the name/value form yields when it is well-formed.
pub open spec fn name_value_lits(name_value: MetaNameValue) -> Seq<Lit> {
    match name_value.value {
        Expr::Array(array) => elem_lits(array.elems@),
        _ => Seq::empty(),
    }
}

/// Exactly what extraction from the name/value form returns.
pub open spec fn name_value_extraction_post(
    name_value: MetaNameValue,
    r: Result<Lits, Errors>,
) -> bool {
    match r {
        Ok(lits) => name_value_flaws(name_value).len() == 0 && lits@ == name_value_lits(
            name_value,
        ),
        Err(errors) => name_value_flaws(name_value).len() > 0 && errors@ == name_value_flaws(
            name_value,
        ),
    }
}

/// Normalize the name/value form into its literal set. The bound
/// expression must be an array of plain literals; the first violation
/// short-circuits the scan.
pub fn get_enumerate_from_name_value(name_value: MetaNameValue) -> (r: Result<Lits, Errors>)
    ensures
        name_value_extraction_post(name_value, r),
{
    let ghost nv: MetaNameValue = name_value;
    match name_value.value {
        Expr::Array(array) => {
            let mut rest: Vec<Expr> = array.elems;
            let ghost orig: Seq<Expr> = rest@;
            let mut enumerate: Lits = Vec::new();
            let ghost mut i: int = 0;
            while rest.len() != 0
                invariant
                    0 <= i,
                    i + rest@.len() == orig.len(),
                    rest@ == orig.skip(i),
                    nv == name_value,
                    nv.value is Array,
                    orig == nv.value->Array_0.elems@,
                    forall|j: int| 0 <= j < i ==> orig[j] is Lit,
                    enumerate@.len() == i,
                    forall|j: int| 0 <= j < i ==> enumerate@[j] == orig[j]->Lit_0,
                decreases rest@.len(),
            {
                proof {
                    assert(orig.skip(i)[0] == orig[i]);
                    assert(orig.skip(i).remove(0) =~= orig.skip(i + 1));
                }
                let item = rest.remove(0);
                match item {
                    Expr::Lit(lit) => {
                        enumerate.push(lit);
                        proof {
                            i = i + 1;
                        }
                    },
                    other => {
                        proof {
                            assert(other == orig[i]);
                            assert(!(other is Lit));
                            assert(!all_literals(orig));
                            lemma_first_non_literal_at(orig, i);
                        }
                        let found = other.span();
                        let mut errors: Errors = Vec::new();
                        errors.push(Diagnostic { kind: DiagnosticKind::LiteralOnly, span: found });
                        proof {
                            assert(errors@ =~= name_value_flaws(nv));
                        }
                        return Err(errors);
                    },
                }
            }
            proof {
                assert(all_literals(orig));
                assert(enumerate@ =~= elem_lits(orig));
            }
            Ok(enumerate)
        },
        value => {
            let found = value.span();
            let mut errors: Errors = Vec::new();
            errors.push(Diagnostic { kind: DiagnosticKind::NeedArray, span: found });
            proof {
                assert(errors@ =~= name_value_flaws(nv));
            }
            Err(errors)
        },
    }
}

/// The serialized key a failure of this field is recorded under: the
/// rename lookup by declared name, falling back to the field's own key.
pub open spec fn resolved_key(field: FieldRef, rename_map: RenameMap) -> Seq<char> {
    if rename_map@.contains_key(field.name@) {
        rename_map@[field.name@]
    } else {
        field.key@
    }
}

/// The emitted fragment carries exactly the given literal set and message
/// format, references the field's value and error collection, and records
/// failures under the field's resolved serialized key.
pub open spec fn validator_matches(
    v: Validator,
    field: FieldRef,
    lits: Seq<Lit>,
    message_format: MessageFormat,
    rename_map: RenameMap,
) -> bool {
    &&& v.field_ident@ == field.ident@
    &&& v.candidates@ == lits
    &&& v.error_key@ == resolved_key(field, rename_map)
    &&& v.errors_variable@ == field.errors_variable@
    &&& v.message_format == message_format
}

/// Emit the validation fragment for a validated literal set. Purely
/// structural: nothing is compared at generation time.
pub fn inner_extract_generic_enumerate_validator(
    field: &FieldRef,
    lits: Lits,
    message_format: MessageFormat,
    rename_map: &RenameMap,
) -> (r: Result<Validator, Errors>)
    requires
        rename_map.wf(),
    ensures
        r matches Ok(v) && validator_matches(v, *field, lits@, message_format, *rename_map),
{
    let field_ident = field.ident.clone();
    let rename = match rename_map.get(&field.name) {
        Some(key) => key,
        None => field.key.clone(),
    };
    let errors_variable = field.errors_variable.clone();
    Ok(
        Validator {
            field_ident,
            candidates: lits,
            error_key: rename,
            errors_variable,
            message_format,
        },
    )
}

/// Build the validator for a constraint given in the list form.
pub fn extract_generic_enumerate_validator_from_list(
    field: &FieldRef,
    item_list: MetaList,
    message_format: MessageFormat,
    rename_map: &RenameMap,
) -> (r: Result<Validator, Errors>)
    requires
        rename_map.wf(),
    ensures
        match r {
            Ok(v) => list_flaws(item_list).len() == 0 && validator_matches(
                v,
                *field,
                list_lits(item_list),
                message_format,
                *rename_map,
            ),
            Err(errors) => list_flaws(item_list).len() > 0 && errors@ == list_flaws(item_list),
        },
{
    let lits = match get_enumerate_from_list(item_list) {
        Ok(lits) => lits,
        Err(errors) => {
            return Err(errors);
        },
    };
    inner_extract_generic_enumerate_validator(field, lits, message_format, rename_map)
}

/// Build the validator for a constraint given in the name/value form.
pub fn extract_generic_enumerate_validator_from_name_value(
    field: &FieldRef,
    name_value: MetaNameValue,
    message_format: MessageFormat,
    rename_map: &RenameMap,
) -> (r: Result<Validator, Errors>)
    requires
        rename_map.wf(),
    ensures
        match r {
            Ok(v) => name_value_flaws(name_value).len() == 0 && validator_matches(
                v,
                *field,
                name_value_lits(name_value),
                message_format,
                *rename_map,
            ),
            Err(errors) => name_value_flaws(name_value).len() > 0 && errors@ == name_value_flaws(
                name_value,
            ),
        },
{
    let lits = match get_enumerate_from_name_value(name_value) {
        Ok(lits) => lits,
        Err(errors) => {
            return Err(errors);
        },
    };
    inner_extract_generic_enumerate_validator(field, lits, message_format, rename_map)
}

/// The list form's arguments parsed, with at least one item, and every
/// item is a plain literal.
pub open spec fn well_formed_list(meta_list: MetaList) -> bool {
    meta_list.args matches ListArgs::Parsed(items) && items@.len() >= 1 && (forall|i: int|
        0 <= i < items@.len() ==> items@[i] is Lit)
}

/// A sequence of all-literal items yields exactly its own literals, in
/// order, and no diagnostics.
pub proof fn lemma_all_literal_items_extract(items: Seq<NestedMeta>)
    requires
        forall|i: int| 0 <= i < items.len() ==> items[i] is Lit,
    ensures
        flaws_of(items).len() == 0,
        lits_of(items).len() == items.len(),
        forall|i: int| 0 <= i < items.len() ==> lits_of(items)[i] == items[i]->Lit_0,
    decreases items.len(),
{
    if items.len() > 0 {
        let prefix = items.drop_last();
        assert forall|i: int| 0 <= i < prefix.len() implies prefix[i] is Lit by {
            assert(prefix[i] == items[i]);
        }
        lemma_all_literal_items_extract(prefix);
        assert(items[items.len() - 1] is Lit);
        assert forall|i: int| 0 <= i < items.len() implies lits_of(items)[i] == items[i]
            ->Lit_0 by {
            if i < items.len() - 1 {
                assert(prefix[i] == items[i]);
            }
        }
    }
}

/// Every well-formed list-form input with one or more literal items
/// extracts successfully, yielding exactly one literal per item, in source
/// order, with zero diagnostics.
pub proof fn lemma_well_formed_list_extraction(meta_list: MetaList, r: Result<Lits, Errors>)
    requires
        well_formed_list(meta_list),
        list_extraction_post(meta_list, r),
    ensures
        list_flaws(meta_list).len() == 0,
        r matches Ok(lits) && lits@.len() == meta_list.args->Parsed_0@.len() && (forall|i: int|
            0 <= i < lits@.len() ==> lits@[i] == meta_list.args->Parsed_0@[i]->Lit_0),
{
    lemma_all_literal_items_extract(meta_list.args->Parsed_0@);
}

/// A list-form input whose arguments parsed to zero items fails with
/// exactly one missing-items diagnostic, pointing at the constraint path.
pub proof fn lemma_empty_list_extraction(meta_list: MetaList, r: Result<Lits, Errors>)
    requires
        meta_list.args matches ListArgs::Parsed(items) && items@.len() == 0,
        list_extraction_post(meta_list, r),
    ensures
        r matches Err(errors) && errors@ == seq![
            Diagnostic { kind: DiagnosticKind::MissingItems, span: meta_list.path_span },
        ],
{
    assert(list_flaws(meta_list) =~= seq![
        Diagnostic { kind: DiagnosticKind::MissingItems, span: meta_list.path_span },
    ]);
}

/// In the list form every item contributes exactly once: its literal value
/// to the extracted sequence, or one diagnostic of the kind its shape
/// calls for. Literal items are collected even when other items fail the
/// whole extraction.
pub proof fn lemma_each_item_counted(items: Seq<NestedMeta>)
    ensures
        lits_of(items).len() + flaws_of(items).len() == items.len(),
        forall|k: int| 0 <= k < flaws_of(items).len() ==> (#[trigger] flaws_of(items)[k].kind
            == DiagnosticKind::LiteralOnly || flaws_of(items)[k].kind
            == DiagnosticKind::ClosureNotSupported),
    decreases items.len(),
{
    if items.len() > 0 {
        lemma_each_item_counted(items.drop_last());
    }
}

/// The number of literal values the first `j` items contribute.
pub open spec fn lits_before(items: Seq<NestedMeta>, j: int) -> int {
    lits_of(items.take(j)).len() as int
}

/// The number of diagnostics the first `j` items contribute.
pub open spec fn flaws_before(items: Seq<NestedMeta>, j: int) -> int {
    flaws_of(items.take(j)).len() as int
}

/// Each item of the list form lands exactly where discovery order puts
/// it: a literal item's value stands in the collected sequence right
/// after the literals of the items before it, and a non-literal item
/// contributes one diagnostic, of the kind its shape calls for and
/// pointing at it, right after the diagnostics of the items before it.
pub proof fn lemma_item_correspondence(items: Seq<NestedMeta>, j: int)
    requires
        0 <= j < items.len(),
    ensures
        items[j] is Lit ==> lits_before(items, j) < lits_of(items).len()
            && lits_of(items)[lits_before(items, j)] == items[j]->Lit_0,
        items[j] is Meta ==> flaws_before(items, j) < flaws_of(items).len()
            && flaws_of(items)[flaws_before(items, j)] == (Diagnostic {
            kind: DiagnosticKind::LiteralOnly,
            span: items[j]->Meta_0,
        }),
        items[j] is Closure ==> flaws_before(items, j) < flaws_of(items).len()
            && flaws_of(items)[flaws_before(items, j)] == (Diagnostic {
            kind: DiagnosticKind::ClosureNotSupported,
            span: items[j]->Closure_0,
        }),
    decreases items.len(),
{
    let prefix = items.drop_last();
    if j == items.len() - 1 {
        assert(items.take(j) =~= prefix);
    } else {
        lemma_item_correspondence(prefix, j);
        assert(prefix.take(j) =~= items.take(j));
        assert(prefix[j] == items[j]);
    }
}

/// A name/value input whose bound expression is not an array fails with
/// exactly one need-array diagnostic, referencing that expression.
pub proof fn lemma_non_array_rejected(name_value: MetaNameValue, r: Result<Lits, Errors>)
    requires
        !(name_value.value is Array),
        name_value_extraction_post(name_value, r),
    ensures
        r matches Err(errors) && errors@ == seq![
            Diagnostic { kind: DiagnosticKind::NeedArray, span: name_value.value.spec_span() },
        ],
{
}

/// A name/value array with a non-literal element fails with exactly one
/// literal-only diagnostic, referencing the first such element, whatever
/// follows it.
pub proof fn lemma_first_bad_element_rejected(
    name_value: MetaNameValue,
    r: Result<Lits, Errors>,
    k: int,
)
    requires
        name_value.value is Array,
        0 <= k < name_value.value->Array_0.elems@.len(),
        !(name_value.value->Array_0.elems@[k] is Lit),
        forall|j: int| 0 <= j < k ==> name_value.value->Array_0.elems@[j] is Lit,
        name_value_extraction_post(name_value, r),
    ensures
        r matches Err(errors) && errors@ == seq![
            Diagnostic {
                kind: DiagnosticKind::LiteralOnly,
                span: name_value.value->Array_0.elems@[k].spec_span(),
            },
        ],
{
    lemma_first_non_literal_at(name_value.value->Array_0.elems@, k);
}

/// List-form extraction is deterministic: two runs on the same input
/// return identical contents, literal for literal and diagnostic for
/// diagnostic.
pub proof fn lemma_list_extraction_deterministic(
    meta_list: MetaList,
    r1: Result<Lits, Errors>,
    r2: Result<Lits, Errors>,
)
    requires
        list_extraction_post(meta_list, r1),
        list_extraction_post(meta_list, r2),
    ensures
        match (r1, r2) {
            (Ok(a), Ok(b)) => a@ == b@,
            (Err(a), Err(b)) => a@ == b@,
            _ => false,
        },
{
}

/// Name/value extraction is deterministic in the same way.
pub proof fn lemma_name_value_extraction_deterministic(
    name_value: MetaNameValue,
    r1: Result<Lits, Errors>,
    r2: Result<Lits, Errors>,
)
    requires
        name_value_extraction_post(name_value, r1),
        name_value_extraction_post(name_value, r2),
    ensures
        match (r1, r2) {
            (Ok(a), Ok(b)) => a@ == b@,
            (Err(a), Err(b)) => a@ == b@,
            _ => false,
        },
{
}

} // verus!
