//! What is imported for messages, and which messages a language cannot convert.

use vstd::prelude::*;

use crate::error::ErrorView;
use crate::language::Language;
use crate::plan::{
    PlannedProtoTypeInfo, PlannedRecord, PlannedRecordField, PlannedType, PlannedWireFieldBinding,
};

verus! {

/// A Go package is its import path, and is called by the name behind a semicolon; without one by the
/// last part of the path.
pub proof fn law_go_packages_are_called_by_their_name(path: Seq<char>, name: Seq<char>)
    requires
        !path.contains(';'),
    ensures
        crate::proto::go_imports::go_package_parts(path + seq![';'] + name) == (path, name),
        crate::proto::go_imports::go_package_parts(path) == (path, crate::text::last_segment(path, '/')),
{
    let whole = path + seq![';'] + name;
    crate::characters::law_first_index_is_the_first(whole, ';');
    crate::characters::law_first_index_is_the_first(path, ';');
    let at = crate::text::first_index(whole, ';');
    assert(whole[path.len() as int] == ';');
    if at < path.len() {
        assert(whole[at] == path[at]);
        assert(path.contains(path[at]));
    }
    assert(whole.take(path.len() as int) =~= path);
    assert(whole.skip(path.len() as int + 1) =~= name);
    let other = crate::text::first_index(path, ';');
    if other < path.len() {
        assert(path.contains(path[other]));
    }
}

/// A message is called by its name below its package, with underscores for dots.
pub proof fn law_messages_are_called_by_their_name_below_the_package(info: PlannedProtoTypeInfo)
    ensures
        info.go_package is None ==> crate::proto::go_imports::go_ref_of(info) is None,
        info.go_package matches Some(package) ==> (crate::proto::go_imports::go_ref_of(info)
            matches Some(found) && found.0 == crate::proto::go_imports::go_package_parts(
            package@,
        ).0 && found.1 == crate::proto::go_imports::go_package_parts(package@).1 && found.2
            == crate::text::replaced_char(
            crate::proto::go_imports::name_below_package(info),
            '.',
            "_"@,
        )),
        info.package@.len() == 0 ==> crate::proto::go_imports::name_below_package(info)
            == info.full_name@,
        info.package@.len() > 0 ==> (crate::text::without_prefix(info.full_name@, info.package@ + "."@)
            matches Some(rest) ==> crate::proto::go_imports::name_below_package(info) == rest),
{
}

/// A path that is imported keeps its alias; another gets one that no other path has.
pub proof fn law_imported_paths_keep_their_alias(
    imports: crate::proto::go_imports::ImportEntries,
    path: Seq<char>,
    alias: Seq<char>,
    wanted: Seq<char>,
)
    ensures
        crate::proto::go_imports::chosen_alias(imports.push((path, alias)), path, wanted) == alias,
        crate::proto::go_imports::with_import(imports.push((path, alias)), path, wanted)
            == imports.push((path, alias)),
        crate::proto::go_imports::alias_of(imports, path) is None
            ==> crate::proto::go_imports::with_import(imports, path, wanted).len() == imports.len()
            + 1 && crate::proto::go_imports::with_import(imports, path, wanted).last().0 == path,
{
}

/// A field with the members of a variant, and a generic field of a carrier, is refused where the
/// language has no conversion; any other is not.
pub proof fn law_fields_without_conversion_are_refused(
    language: Language,
    message: Seq<char>,
    field: PlannedRecordField,
)
    ensures
        ({
            let refused = crate::proto::validation::field_conversion_error(
                language,
                message,
                field,
            );
            &&& field.wire_binding is None ==> refused is None
            &&& field.wire_binding matches Some(PlannedWireFieldBinding::VariantMembers {
                wire_name,
                ..
            }) ==> refused == Some(
                ErrorView::UnsupportedProtoOneofConversion { language, message, oneof: wire_name@ },
            )
            &&& field.wire_binding matches Some(PlannedWireFieldBinding::Value { wire_type }) ==> (
            crate::plan::bare_type(field.field_type) is TypeParameter && crate::plan::is_generic_carrier(wire_type)
                ==> refused == Some(
                ErrorView::UnsupportedProtoGenericCarrierConversion {
                    language,
                    message,
                    field: field.name@,
                },
            ))
            &&& field.wire_binding matches Some(PlannedWireFieldBinding::Value { wire_type }) ==> (
            !(crate::plan::bare_type(field.field_type) is TypeParameter) || !crate::plan::is_generic_carrier(
                wire_type,
            ) ==> refused is None)
        }),
{
}

/// A record is refused for the first of its fields that is, but for those that are left out; one
/// without a message is not.
pub proof fn law_records_are_refused_for_their_first_field(
    language: Language,
    message: Seq<char>,
    fields: Seq<PlannedRecordField>,
    first: PlannedRecordField,
    record: PlannedRecord,
)
    ensures
        record.proto is None ==> crate::proto::validation::record_conversion_error(
            language,
            record,
        ) is None,
        record.proto matches Some(proto) ==> crate::proto::validation::record_conversion_error(
            language,
            record,
        ) == crate::proto::validation::fields_conversion_error(
            language,
            proto.full_name@,
            record.fields@,
        ),
        first.visibility is Omitted ==> crate::proto::validation::fields_conversion_error(
            language,
            message,
            seq![first] + fields,
        ) == crate::proto::validation::fields_conversion_error(language, message, fields),
        !(first.visibility is Omitted) && crate::proto::validation::field_conversion_error(
            language,
            message,
            first,
        ) is Some ==> crate::proto::validation::fields_conversion_error(
            language,
            message,
            seq![first] + fields,
        ) == crate::proto::validation::field_conversion_error(language, message, first),
        !(first.visibility is Omitted) && crate::proto::validation::field_conversion_error(
            language,
            message,
            first,
        ) is None ==> crate::proto::validation::fields_conversion_error(
            language,
            message,
            seq![first] + fields,
        ) == crate::proto::validation::fields_conversion_error(language, message, fields),
        crate::proto::validation::fields_conversion_error(language, message, Seq::empty()) is None,
{
    let all = seq![first] + fields;
    assert(all.drop_first() =~= fields);
    assert(all[0] == first);
}

/// A carrier is one of two messages, however optional it is.
pub proof fn law_carriers_are_payloads(kind: PlannedType)
    ensures
        crate::plan::is_generic_carrier(kind) <==> (crate::plan::bare_type(kind) matches PlannedType::Message(message)
            && (message.proto.full_name@ == "temporal.api.common.v1.Payload"@
            || message.proto.full_name@ == "temporal.api.common.v1.Payloads"@)),
        kind matches PlannedType::Optional(inner) ==> crate::plan::bare_type(kind) == crate::plan::bare_type(*inner),
        !(kind is Optional) ==> crate::plan::bare_type(kind) == kind,
{
}

} // verus!
