//! Records that a language has no protobuf conversion for.

use vstd::prelude::*;

use crate::error::{Error, ErrorView};
use crate::language::Language;
use crate::plan::{
    is_proto_generic_carrier, PlannedRecord, PlannedRecordField, PlannedWireFieldBinding,
    RecordFieldVisibility,
};

verus! {

/// Why a field of a record cannot be converted, if so: it is bound to a oneof, or it carries a
/// value of any type.
pub open spec fn field_conversion_error(
    language: Language,
    message: Seq<char>,
    field: PlannedRecordField,
) -> Option<ErrorView> {
    match field.wire_binding {
        Some(PlannedWireFieldBinding::VariantMembers { wire_name, .. }) => Some(
            ErrorView::UnsupportedProtoOneofConversion { language, message, oneof: wire_name@ },
        ),
        Some(PlannedWireFieldBinding::Value { wire_type }) => if crate::plan::bare_type(
            field.field_type,
        ) is TypeParameter && crate::plan::is_generic_carrier(wire_type) {
            Some(
                ErrorView::UnsupportedProtoGenericCarrierConversion {
                    language,
                    message,
                    field: field.name@,
                },
            )
        } else {
            None
        },
        None => None,
    }
}

/// The error of the first field that cannot be converted; fields that are left out are not
/// looked at.
pub open spec fn fields_conversion_error(
    language: Language,
    message: Seq<char>,
    fields: Seq<PlannedRecordField>,
) -> Option<ErrorView>
    decreases fields.len(),
{
    if fields.len() == 0 {
        None
    } else if fields[0].visibility is Omitted {
        fields_conversion_error(language, message, fields.drop_first())
    } else {
        match field_conversion_error(language, message, fields[0]) {
            Some(error) => Some(error),
            None => fields_conversion_error(language, message, fields.drop_first()),
        }
    }
}

/// Why a record cannot be converted, if so. A record without a message needs no conversion.
pub open spec fn record_conversion_error(language: Language, record: PlannedRecord) -> Option<
    ErrorView,
> {
    match record.proto {
        Some(proto) => fields_conversion_error(language, proto.full_name@, record.fields@),
        None => None,
    }
}

/// Refuses a record with a field that the language has no conversion for.
pub fn validate_record_conversion(language: Language, record: &PlannedRecord) -> (result: Result<
    (),
    Error,
>)
    ensures
        match record_conversion_error(language, *record) {
            Some(view) => result matches Err(error) && error@ == view,
            None => result is Ok,
        },
{
    let proto = match &record.proto {
        Some(proto) => proto,
        None => {
            return Ok(());
        },
    };
    let ghost fields = record.fields@;
    let ghost message = proto.full_name@;
    let mut i: usize = 0;
    assert(fields.skip(0) =~= fields);
    while i < record.fields.len()
        invariant
            i <= record.fields.len(),
            fields == record.fields@,
            message == proto.full_name@,
            record.proto == Some(*proto),
            fields_conversion_error(language, message, fields.skip(i as int))
                == fields_conversion_error(language, message, fields),
        decreases record.fields.len() - i,
    {
        assert(fields.skip(i as int).drop_first() =~= fields.skip(i + 1));
        assert(fields.skip(i as int)[0] == fields[i as int]);
        let field = &record.fields[i];
        let omitted = match &field.visibility {
            RecordFieldVisibility::Omitted => true,
            _ => false,
        };
        if !omitted {
            match &field.wire_binding {
                Some(PlannedWireFieldBinding::VariantMembers { wire_name, .. }) => {
                    return Err(
                        Error::UnsupportedProtoOneofConversion {
                            language,
                            message: proto.full_name.clone(),
                            oneof: wire_name.clone(),
                        },
                    );
                },
                Some(PlannedWireFieldBinding::Value { wire_type }) => {
                    if field.field_type.is_type_parameter() && is_proto_generic_carrier(wire_type) {
                        return Err(
                            Error::UnsupportedProtoGenericCarrierConversion {
                                language,
                                message: proto.full_name.clone(),
                                field: field.name.clone(),
                            },
                        );
                    }
                },
                None => {},
            }
        }
        i += 1;
    }
    Ok(())
}

} // verus!
