//! How a converter takes up the fields of its model, one after another.

use vstd::prelude::*;

use crate::plan::PlannedRecordField;
use crate::proto::python::RenderedModel;

verus! {

/// A type parameter is told by the name of what it stands for.
pub proof fn law_type_parameters_are_told_by_their_name(stem: Seq<char>, parameter: Seq<char>)
    ensures
        stem.len() > 0 ==> crate::proto::python::type_variable_base_text(stem + "T"@) == crate::naming::snake(stem) + "_type"@,
        crate::text::without_suffix(parameter, "T"@) is None ==> crate::proto::python::type_variable_base_text(parameter)
            == crate::naming::snake(parameter) + "_type"@,
        crate::proto::python::type_variable_base_text("T"@) == crate::naming::snake("T"@) + "_type"@,
{
    reveal_strlit("T");
    let whole = stem + "T"@;
    assert(whole.take(stem.len() as int) =~= stem);
    assert(whole.skip(stem.len() as int) =~= "T"@);
    assert("T"@.take(0) =~= Seq::<char>::empty());
    assert("T"@.skip(0) =~= "T"@);
}

/// A field that is left out takes no place among those that are shown.
pub proof fn law_left_out_fields_take_no_place(
    fields: Seq<PlannedRecordField>,
    field: PlannedRecordField,
)
    ensures
        crate::proto::python::visible_count(fields.push(field)) == crate::proto::python::visible_count(fields) + if crate::proto::python::omitted(
            field,
        ) {
            0nat
        } else {
            1nat
        },
        crate::proto::python::visible_count(fields) <= fields.len(),
    decreases fields.len(),
{
    assert(fields.push(field).drop_last() =~= fields);
    if fields.len() > 0 {
        law_left_out_fields_take_no_place(fields.drop_last(), field);
    }
}

/// Every field that is shown is converted with what is at its own place; one that is left out is
/// not converted.
pub proof fn law_fields_are_converted_at_their_place(
    model: RenderedModel,
    fields: Seq<PlannedRecordField>,
    field: PlannedRecordField,
    protos: Seq<crate::proto::python::ProtoFieldView>,
    arguments: Seq<crate::proto::python::TypeArgumentView>,
    generic: bool,
)
    requires
        crate::proto::python::visible_count(fields) < model.fields@.len(),
        crate::proto::python::visible_count(fields) < protos.len(),
    ensures
        ({
            let before = crate::proto::python::field_wires_of(model, fields, protos, arguments, generic);
            let all = crate::proto::python::field_wires_of(model, fields.push(field), protos, arguments, generic);
            let k = crate::proto::python::visible_count(fields) as int;
            &&& crate::proto::python::omitted(field) ==> all == before
            &&& !crate::proto::python::omitted(field) ==> all == before.push(
                crate::proto::python::field_wire_of(
                    model.name@,
                    field,
                    model.fields@[k],
                    protos[k],
                    arguments,
                    generic,
                ),
            )
        }),
{
    assert(fields.push(field).drop_last() =~= fields);
}

/// A model is generic in a oneof where it has type parameters and a oneof among its fields.
pub proof fn law_generic_models_have_parameters_and_a_oneof(
    model: RenderedModel,
    protos: Seq<crate::proto::python::ProtoFieldView>,
)
    ensures
        model.type_parameters@.len() == 0 ==> !crate::proto::python::is_generic_oneof(model, protos),
        (forall|k: int| 0 <= k < protos.len() ==> (#[trigger] protos[k]).oneof is None)
            ==> !crate::proto::python::is_generic_oneof(model, protos),
        model.type_parameters@.len() > 0 ==> forall|k: int|
            0 <= k < protos.len() && (#[trigger] protos[k]).oneof is Some ==> crate::proto::python::is_generic_oneof(
                model,
                protos,
            ),
{
}

/// The modules of every case of every oneof are imported.
pub proof fn law_modules_of_cases_are_imported(
    protos: Seq<crate::proto::python::ProtoFieldView>,
    proto: crate::proto::python::ProtoFieldView,
    cases: Seq<crate::proto::python::OneofCaseView>,
    case: crate::proto::python::OneofCaseView,
    module: Seq<char>,
)
    ensures
        crate::proto::python::case_modules(cases.push(case)).contains(module) <==> crate::proto::python::case_modules(cases).contains(
            module,
        ) || case.payload_type.modules.contains(module),
        proto.oneof is None ==> crate::proto::python::oneof_modules(protos.push(proto)) == crate::proto::python::oneof_modules(protos),
        proto.oneof matches Some(oneof) ==> (crate::proto::python::oneof_modules(protos.push(proto)).contains(module)
            <==> crate::proto::python::oneof_modules(protos).contains(module) || crate::proto::python::case_modules(
            oneof.cases,
        ).contains(module)),
{
    assert(protos.push(proto).drop_last() =~= protos);
    assert(cases.push(case).drop_last() =~= cases);
}

/// A word of an annotation is replaced whole: what stands between words stays.
pub proof fn law_annotations_are_replaced_by_words(
    pending: Seq<char>,
    c: char,
    rest: Seq<char>,
    arguments: Seq<crate::proto::python::TypeArgumentView>,
)
    ensures
        crate::text::is_ascii_word(c) || c == '_' ==> crate::proto::python::hint_rest(seq![c] + rest, pending, arguments)
            == crate::proto::python::hint_rest(rest, pending.push(c), arguments),
        !crate::text::is_ascii_word(c) && c != '_' ==> crate::proto::python::hint_rest(seq![c] + rest, pending, arguments)
            == crate::proto::python::hint_word(pending, arguments) + seq![c] + crate::proto::python::hint_rest(
            rest,
            Seq::empty(),
            arguments,
        ),
        crate::proto::python::hint_rest(Seq::empty(), pending, arguments) == crate::proto::python::hint_word(pending, arguments),
        pending.len() > 0 ==> crate::proto::python::hint_word(pending, arguments) == crate::proto::python::substituted(
            arguments,
            pending,
        ),
        crate::proto::python::hint_word(Seq::empty(), arguments).len() == 0,
{
    let whole = seq![c] + rest;
    assert(whole.drop_first() =~= rest);
    assert(whole[0] == c);
}

} // verus!
