//! What the generated Go conversions do: whatever is written into a message is read back from the
//! same field, by the opposite conversion.

use vstd::prelude::*;

use crate::plan::TypeReplacementSpec;
use crate::language::Language;
use crate::proto::go::{
    GoPackageContext, OperationBinding, PlannedEnumType, PlannedField, PlannedFieldKind,
    PlannedMessageSource, PlannedMessageType, PlannedScalarType, PlannedValueType,
    RenderedFieldConversion, RenderedModelWire, RenderedOperation, RenderedService, FutureAdapter,
};

verus! {

/// The Go block that copies every entry of a map into a new one: nothing is made of an empty map,
/// and each entry is handed to the lines inside of the loop.
pub open spec fn copies_entries(
    lines: Seq<Seq<char>>,
    source: Seq<char>,
    target: Seq<char>,
    map_type: Seq<char>,
    entry: Seq<Seq<char>>,
) -> bool {
    lines =~= seq![
        "if len("@ + source + ") > 0 {"@,
        "\t"@ + target + " = make("@ + map_type + ", len("@ + source + "))"@,
        "\tfor k, v := range "@ + source + " {"@,
    ] + entry + seq!["\t}"@, "}"@]
}

/// The Go lines that put a converted value under the key of the loop: with an error that is
/// returned where the conversion can fail, and only where it gives a value.
pub open spec fn puts_entry(
    entry: Seq<Seq<char>>,
    target: Seq<char>,
    converted: Seq<char>,
    fallible: bool,
    pointer: bool,
    error_return: Seq<char>,
) -> bool {
    let checked = seq![
        "\t\tconverted, err := "@ + converted,
        "\t\tif err != nil {"@,
        "\t\t\t"@ + error_return,
        "\t\t}"@,
    ];
    if pointer {
        if fallible {
            entry =~= checked + seq![
                "\t\tif converted != nil {"@,
                "\t\t\t"@ + target + "[k] = *converted"@,
                "\t\t}"@,
            ]
        } else {
            entry =~= seq![
                "\t\tif converted := "@ + converted + "; converted != nil {"@,
                "\t\t\t"@ + target + "[k] = *converted"@,
                "\t\t}"@,
            ]
        }
    } else if fallible {
        entry =~= checked + seq!["\t\t"@ + target + "[k] = converted"@]
    } else {
        entry =~= seq!["\t\t"@ + target + "[k] = "@ + converted]
    }
}

/// A map is copied into the message and out of it by the same block, with the field and the getter
/// exchanged: every entry of the one reaches the other under its own key.
pub proof fn law_maps_are_copied_both_ways(
    conversion: crate::proto::go::GoConversionView,
    native_map_type: Seq<char>,
    proto_map_type: Seq<char>,
    receiver: Seq<char>,
    proto_field: Seq<char>,
    go_field: Seq<char>,
    error_return: Seq<char>,
)
    ensures
        exists|entry: Seq<Seq<char>>|
            #[trigger] copies_entries(
                crate::proto::go::map_to_proto(
                    conversion,
                    proto_map_type,
                    receiver,
                    proto_field,
                    error_return,
                ),
                receiver,
                "message."@ + proto_field,
                proto_map_type,
                entry,
            ) && puts_entry(
                entry,
                "message."@ + proto_field,
                crate::proto::go::element_to_proto_text(conversion, "v"@),
                conversion.fallible,
                false,
                error_return,
            ),
        exists|entry: Seq<Seq<char>>|
            #[trigger] copies_entries(
                crate::proto::go::map_from_proto(
                    conversion,
                    native_map_type,
                    proto_field,
                    go_field,
                    error_return,
                ),
                "proto.Get"@ + proto_field + "()"@,
                "value."@ + go_field,
                native_map_type,
                entry,
            ) && puts_entry(
                entry,
                "value."@ + go_field,
                crate::proto::go::from_proto_text(conversion, "v"@),
                conversion.fallible,
                conversion.kind == crate::proto::go::GoConversionKind::OverrideConverter
                    && conversion.from_proto_returns_pointer,
                error_return,
            ),
{
    reveal_strlit("\tmessage.");
    reveal_strlit("\t\tmessage.");
    reveal_strlit("\tvalue.");
    reveal_strlit("\t");
    reveal_strlit("\t\t");
    reveal_strlit("message.");
    reveal_strlit("value.");
    assert("\tmessage."@ =~= "\t"@ + "message."@);
    assert("\t\tmessage."@ =~= "\t\t"@ + "message."@);
    assert("\tvalue."@ =~= "\t"@ + "value."@);
    let target = "message."@ + proto_field;
    let written = crate::proto::go::element_to_proto_text(conversion, "v"@);
    let to_entry = if conversion.fallible {
        seq![
            "\t\tconverted, err := "@ + written,
            "\t\tif err != nil {"@,
            "\t\t\t"@ + error_return,
            "\t\t}"@,
            "\t\t"@ + target + "[k] = converted"@,
        ]
    } else {
        seq!["\t\t"@ + target + "[k] = "@ + written]
    };
    assert("\t\tmessage."@ + proto_field + "[k] = converted"@ =~= "\t\t"@ + target
        + "[k] = converted"@);
    assert("\t\tmessage."@ + proto_field + "[k] = "@ + written =~= "\t\t"@ + target + "[k] = "@
        + written);
    let to_lines = crate::proto::go::map_to_proto(conversion, proto_map_type, receiver, proto_field, error_return);
    assert("\tmessage."@ + proto_field + " = make("@ + proto_map_type + ", len("@ + receiver
        + "))"@ =~= "\t"@ + target + " = make("@ + proto_map_type + ", len("@ + receiver + "))"@);
    assert(copies_entries(to_lines, receiver, target, proto_map_type, to_entry));
    assert(puts_entry(to_entry, target, written, conversion.fallible, false, error_return));
    let source = "proto.Get"@ + proto_field + "()"@;
    let kept = "value."@ + go_field;
    let from_entry = crate::proto::go::map_entry_lines_of(
        conversion,
        crate::proto::go::from_proto_text(conversion, "v"@),
        kept,
        error_return,
    );
    assert("\tvalue."@ + go_field + " = make("@ + native_map_type + ", len("@ + source + "))"@
        =~= "\t"@ + kept + " = make("@ + native_map_type + ", len("@ + source + "))"@);
    assert(copies_entries(
        crate::proto::go::map_from_proto(conversion, native_map_type, proto_field, go_field, error_return),
        source,
        kept,
        native_map_type,
        from_entry,
    ));
    lemma_entry_is_put(conversion, crate::proto::go::from_proto_text(conversion, "v"@), kept, error_return);
}

/// The lines inside of the loop put each entry under its key.
proof fn lemma_entry_is_put(
    conversion: crate::proto::go::GoConversionView,
    converted: Seq<char>,
    target: Seq<char>,
    error_return: Seq<char>,
)
    ensures
        puts_entry(
            crate::proto::go::map_entry_lines_of(conversion, converted, target, error_return),
            target,
            converted,
            conversion.fallible,
            conversion.kind == crate::proto::go::GoConversionKind::OverrideConverter
                && conversion.from_proto_returns_pointer,
            error_return,
        ),
{
}

/// A map that a resource holds is copied out of the message by the same block.
pub proof fn law_maps_of_resources_are_copied(
    conversion: crate::proto::go::GoConversionView,
    getter: Seq<char>,
    local: Seq<char>,
    native_type: Seq<char>,
)
    ensures
        ({
            let lines = crate::proto::go::map_source(conversion, getter, local, native_type);
            &&& lines.len() > 0
            &&& lines[0] == "var "@ + local + " "@ + native_type
            &&& exists|entry: Seq<Seq<char>>|
                #[trigger] copies_entries(lines.drop_first(), getter, local, native_type, entry)
                    && puts_entry(
                    entry,
                    local,
                    crate::proto::go::from_proto_text(conversion, "v"@),
                    conversion.fallible,
                    conversion.kind == crate::proto::go::GoConversionKind::OverrideConverter
                        && conversion.from_proto_returns_pointer,
                    "return nil, err"@,
                )
        }),
{
    let lines = crate::proto::go::map_source(conversion, getter, local, native_type);
    let entry = crate::proto::go::map_entry_lines_of(
        conversion,
        crate::proto::go::from_proto_text(conversion, "v"@),
        local,
        "return nil, err"@,
    );
    assert(lines.drop_first() =~= seq![
        "if len("@ + getter + ") > 0 {"@,
        "\t"@ + local + " = make("@ + native_type + ", len("@ + getter + "))"@,
        "\tfor k, v := range "@ + getter + " {"@,
    ] + entry + seq!["\t}"@, "}"@]);
    assert(copies_entries(lines.drop_first(), getter, local, native_type, entry));
    lemma_entry_is_put(conversion, crate::proto::go::from_proto_text(conversion, "v"@), local, "return nil, err"@);
}

/// The Go loop over every element of a list.
pub open spec fn visits_elements(lines: Seq<Seq<char>>, source: Seq<char>, body: Seq<Seq<char>>) -> bool {
    lines == seq!["for _, item := range "@ + source + " {"@] + body + seq!["}"@]
}

/// The Go line that appends to a list.
pub open spec fn appends(indent: Seq<char>, target: Seq<char>, item: Seq<char>) -> Seq<char> {
    indent + target + " = append("@ + target + ", "@ + item + ")"@
}

/// A list is copied into the message and out of it by a loop over all of its elements, each of
/// which is appended to the other list.
pub proof fn law_lists_are_copied_both_ways(
    conversion: crate::proto::go::GoConversionView,
    receiver: Seq<char>,
    proto_field: Seq<char>,
    go_field: Seq<char>,
    error_return: Seq<char>,
)
    ensures
        exists|body: Seq<Seq<char>>|
            #[trigger] visits_elements(
                crate::proto::go::repeated_to_proto(conversion, receiver, proto_field, error_return),
                receiver,
                body,
            ) && body.len() > 0 && body.last() == appends(
                "\t"@,
                "message."@ + proto_field,
                if conversion.fallible {
                    "converted"@
                } else {
                    crate::proto::go::element_to_proto_text(conversion, "item"@)
                },
            ) && (conversion.fallible ==> body[0] == "\tconverted, err := "@
                + crate::proto::go::element_to_proto_text(conversion, "item"@) && body[1] == "\tif err != nil {"@
                && body[2] == "\t\t"@ + error_return),
        conversion.kind != crate::proto::go::GoConversionKind::OverrideConverter
            || !conversion.from_proto_returns_pointer ==> exists|body: Seq<Seq<char>>|
            #[trigger] visits_elements(
                crate::proto::go::repeated_from_proto(conversion, proto_field, go_field, error_return),
                "proto.Get"@ + proto_field + "()"@,
                body,
            ) && body.len() > 0 && body.last() == appends(
                "\t"@,
                "value."@ + go_field,
                if conversion.fallible {
                    "converted"@
                } else {
                    crate::proto::go::from_proto_text(conversion, "item"@)
                },
            ) && (conversion.fallible ==> body[0] == "\tconverted, err := "@
                + crate::proto::go::from_proto_text(conversion, "item"@) && body[1] == "\tif err != nil {"@
                && body[2] == "\t\t"@ + error_return),
{
    reveal_strlit("\tmessage.");
    reveal_strlit("\tvalue.");
    reveal_strlit("\t");
    reveal_strlit("message.");
    reveal_strlit("value.");
    reveal_strlit(" = append(message.");
    reveal_strlit(" = append(value.");
    reveal_strlit(" = append(");
    reveal_strlit(", converted)");
    reveal_strlit(", ");
    reveal_strlit("converted");
    reveal_strlit(")");
    reveal_strlit("for _, item := range proto.Get");
    reveal_strlit("for _, item := range ");
    reveal_strlit("proto.Get");
    reveal_strlit("() {");
    reveal_strlit("()");
    reveal_strlit(" {");
    assert("\tmessage."@ =~= "\t"@ + "message."@);
    assert("\tvalue."@ =~= "\t"@ + "value."@);
    assert(" = append(message."@ =~= " = append("@ + "message."@);
    assert(" = append(value."@ =~= " = append("@ + "value."@);
    assert(", converted)"@ =~= ", "@ + "converted"@ + ")"@);
    assert("for _, item := range proto.Get"@ =~= "for _, item := range "@ + "proto.Get"@);
    assert("() {"@ =~= "()"@ + " {"@);
    let to_lines = crate::proto::go::repeated_to_proto(conversion, receiver, proto_field, error_return);
    let to_body = to_lines.subrange(1, to_lines.len() - 1);
    let written = crate::proto::go::element_to_proto_text(conversion, "item"@);
    let target = "message."@ + proto_field;
    assert(appends("\t"@, target, "converted"@) =~= "\tmessage."@ + proto_field
        + " = append(message."@ + proto_field + ", converted)"@);
    assert(appends("\t"@, target, written) =~= "\tmessage."@ + proto_field + " = append(message."@
        + proto_field + ", "@ + written + ")"@);
    assert(to_lines =~= seq!["for _, item := range "@ + receiver + " {"@] + to_body + seq!["}"@]);
    assert(visits_elements(to_lines, receiver, to_body));
    if conversion.kind != crate::proto::go::GoConversionKind::OverrideConverter
        || !conversion.from_proto_returns_pointer {
        let from_lines = crate::proto::go::repeated_from_proto(conversion, proto_field, go_field, error_return);
        let from_body = from_lines.subrange(1, from_lines.len() - 1);
        let read = crate::proto::go::from_proto_text(conversion, "item"@);
        let kept = "value."@ + go_field;
        let source = "proto.Get"@ + proto_field + "()"@;
        assert(appends("\t"@, kept, "converted"@) =~= "\tvalue."@ + go_field + " = append(value."@
            + go_field + ", converted)"@);
        assert(appends("\t"@, kept, read) =~= "\tvalue."@ + go_field + " = append(value."@ + go_field
            + ", "@ + read + ")"@);
        assert("for _, item := range proto.Get"@ + proto_field + "() {"@
            =~= "for _, item := range "@ + source + " {"@);
        assert(from_lines =~= seq!["for _, item := range "@ + source + " {"@] + from_body
            + seq!["}"@]);
        assert(visits_elements(from_lines, source, from_body));
    }
}

/// A converted element that is a pointer is appended where there is one.
pub proof fn law_elements_behind_pointers_are_appended(
    conversion: crate::proto::go::GoConversionView,
    proto_field: Seq<char>,
    go_field: Seq<char>,
    error_return: Seq<char>,
)
    requires
        conversion.kind == crate::proto::go::GoConversionKind::OverrideConverter,
        conversion.from_proto_returns_pointer,
    ensures
        ({
            let lines = crate::proto::go::repeated_from_proto(conversion, proto_field, go_field, error_return);
            &&& lines[0] == "for _, item := range proto.Get"@ + proto_field + "() {"@
            &&& lines[lines.len() - 3] == "\t\tvalue."@ + go_field + " = append(value."@ + go_field
                + ", *converted)"@
            &&& conversion.fallible ==> lines[1] == "\tconverted, err := "@ + crate::proto::go::from_proto_text(
                conversion,
                "item"@,
            ) && lines[2] == "\tif err != nil {"@ && lines[3] == "\t\t"@ + error_return
                && lines[5] == "\tif converted != nil {"@
            &&& !conversion.fallible ==> lines[1] == "\tif converted := "@ + crate::proto::go::from_proto_text(
                conversion,
                "item"@,
            ) + "; converted != nil {"@
        }),
{
}

/// A scalar is assigned as it is, in both directions, between the same two fields.
pub proof fn law_scalars_are_assigned_both_ways(
    imports: crate::proto::go_imports::ImportEntries,
    scalar: PlannedScalarType,
    receiver: Seq<char>,
    proto_field: Seq<char>,
    go_field: Seq<char>,
    pointer: bool,
    error_return: Seq<char>,
)
    ensures
        ({
            let (step, after) = crate::proto::go::value_step(imports, PlannedValueType::Scalar(scalar));
            &&& step is Ok
            &&& after == imports
            &&& crate::proto::go::singular_to_proto(step->Ok_0, receiver, proto_field, pointer, error_return)
                == if pointer {
                seq![
                    "if "@ + receiver + " != nil {"@,
                    "\tmessage."@ + proto_field + " = "@ + ("(*"@ + receiver + ")"@),
                    "}"@,
                ]
            } else {
                seq!["message."@ + proto_field + " = "@ + receiver]
            }
            &&& crate::proto::go::singular_from_proto(step->Ok_0, proto_field, go_field, pointer, error_return)
                == if pointer {
                seq![
                    "{"@,
                    "\tconverted := "@ + ("proto.Get"@ + proto_field + "()"@),
                    "\tvalue."@ + go_field + " = &converted"@,
                    "}"@,
                ]
            } else {
                seq!["value."@ + go_field + " = "@ + ("proto.Get"@ + proto_field + "()"@)]
            }
        }),
{
    reveal_strlit("");
    let getter = "proto.Get"@ + proto_field + "()"@;
    assert(""@ =~= Seq::empty());
    assert(""@ + receiver + ""@ =~= receiver);
    assert(""@ + getter + ""@ =~= getter);
    let inside = "(*"@ + receiver + ")"@;
    assert(""@ + inside + ""@ =~= inside);
}

/// An enumeration is cast to the type of the message when it is written, and to its own when it is
/// read.
pub proof fn law_enumerations_are_cast_both_ways(
    imports: crate::proto::go_imports::ImportEntries,
    enumeration: PlannedEnumType,
    native: Seq<char>,
    proto: Seq<char>,
    expr: Seq<char>,
)
    requires
        crate::proto::go::enum_native_type_of(enumeration) == Ok::<Seq<char>, Seq<char>>(native),
        crate::proto::go::value_type_step(imports, PlannedValueType::Enum(enumeration)).0 == Ok::<Seq<char>, Seq<char>>(proto),
    ensures
        ({
            let step = crate::proto::go::value_step(imports, PlannedValueType::Enum(enumeration)).0;
            &&& step is Ok
            &&& crate::proto::go::from_proto_text(step->Ok_0, expr) == native + "(int32("@ + expr + "))"@
            &&& crate::proto::go::to_proto_text(step->Ok_0, expr) == proto + "("@ + expr + ")"@
            &&& !step->Ok_0.fallible
        }),
{
}

/// The functions of a replacement are those that it names, and else those that are named after the
/// type: the one from the message reads, the one to the message writes.
pub proof fn law_replacements_name_their_functions(
    full_name: Seq<char>,
    replacement: TypeReplacementSpec,
)
    ensures
        crate::plan::text_for(replacement.from_proto, Language::Go) matches Some(name)
            ==> crate::proto::go::from_proto_converter(full_name, replacement) == name,
        crate::plan::text_for(replacement.to_proto, Language::Go) matches Some(name)
            ==> crate::proto::go::to_proto_converter(full_name, replacement) == name,
        crate::plan::text_for(replacement.from_proto, Language::Go) is None ==> crate::proto::go::from_proto_converter(
            full_name,
            replacement,
        ) == crate::naming::lower_camel(crate::text::last_segment(full_name, '.')) + "FromProto"@,
        crate::plan::text_for(replacement.to_proto, Language::Go) is None ==> crate::proto::go::to_proto_converter(
            full_name,
            replacement,
        ) == crate::naming::lower_camel(crate::text::last_segment(full_name, '.')) + "ToProto"@,
{
}

/// A message is read by the function from the message and written by the function to it: those of
/// its replacement, those of its authored type, or those that are generated for its model.
pub proof fn law_messages_are_converted_by_their_functions(
    message: PlannedMessageType,
    expr: Seq<char>,
)
    ensures
        ({
            let outcome = crate::proto::go::message_conversion_of(message);
            let name = message.info.full_name@;
            let annotated = message.replacement matches Some(replacement) && crate::plan::text_for(
                replacement.annotation,
                Language::Go,
            ) is Some;
            &&& annotated ==> {
                &&& outcome is Ok
                &&& crate::proto::go::from_proto_text(outcome->Ok_0, expr) == crate::proto::go::from_proto_converter(
                    name,
                    message.replacement->Some_0,
                ) + "(ctx, "@ + expr + ")"@
                &&& crate::proto::go::to_proto_text(outcome->Ok_0, expr) == crate::proto::go::to_proto_converter(
                    name,
                    message.replacement->Some_0,
                ) + "(ctx, "@ + expr + ")"@
                &&& outcome->Ok_0.to_proto_takes_pointer == !message.replacement_is_nilable
                &&& outcome->Ok_0.from_proto_returns_pointer == !message.replacement_is_nilable
                &&& outcome->Ok_0.fallible
            }
            &&& !annotated && message.authored_annotation is Some ==> {
                &&& outcome is Ok
                &&& crate::proto::go::from_proto_text(outcome->Ok_0, expr) == crate::naming::lower_camel(
                    crate::text::last_segment(name, '.'),
                ) + "FromProto"@ + "(ctx, "@ + expr + ")"@
                &&& crate::proto::go::to_proto_text(outcome->Ok_0, expr) == crate::naming::lower_camel(
                    crate::text::last_segment(name, '.'),
                ) + "ToProto"@ + "(ctx, "@ + expr + ")"@
                &&& outcome->Ok_0.fallible
            }
            &&& !annotated && message.authored_annotation is None && message.replacement is Some
                ==> outcome is Err
            &&& message.authored_annotation is None && message.replacement is None
                && message.source == PlannedMessageSource::Proto ==> {
                &&& outcome is Ok
                &&& crate::proto::go::from_proto_text(outcome->Ok_0, expr) == crate::naming::lower_camel(message.model_name@)
                    + "FromProto"@ + "(ctx, "@ + expr + ")"@
                &&& crate::proto::go::to_proto_text(outcome->Ok_0, expr) == expr + ".toProto(ctx)"@
                &&& outcome->Ok_0.fallible
            }
            &&& message.authored_annotation is None && message.replacement is None
                && message.source == PlannedMessageSource::Wit ==> outcome is Err
        }),
{
    reveal_strlit("");
    assert(""@ + expr =~= expr);
}

/// The reading and the writing function of a type never have the same name.
pub proof fn law_directions_have_their_own_names(full_name: Seq<char>)
    ensures
        crate::proto::go::default_from_proto_name(full_name) != crate::proto::go::default_to_proto_name(full_name),
{
    reveal_strlit("FromProto");
    reveal_strlit("ToProto");
    assert("FromProto"@.len() == 9);
    assert("ToProto"@.len() == 7);
    assert(crate::proto::go::default_from_proto_name(full_name).len() != crate::proto::go::default_to_proto_name(full_name).len());
}

/// A model that is a pointer is read where the message has one, and its address is kept; one that
/// is a value is read always. A failed conversion returns its error first.
pub proof fn law_models_are_read_where_they_are(
    conversion: crate::proto::go::GoConversionView,
    proto_field: Seq<char>,
    go_field: Seq<char>,
    pointer: bool,
    error_return: Seq<char>,
)
    requires
        conversion.kind == crate::proto::go::GoConversionKind::ModelConverter,
        conversion.fallible,
    ensures
        ({
            let lines = crate::proto::go::singular_from_proto(
                conversion,
                proto_field,
                go_field,
                pointer,
                error_return,
            );
            let getter = "proto.Get"@ + proto_field + "()"@;
            &&& lines.len() == 7
            &&& lines[0] == if pointer {
                "if "@ + getter + " != nil {"@
            } else {
                "{"@
            }
            &&& lines[1] == "\tconverted, err := "@ + crate::proto::go::from_proto_text(conversion, getter)
            &&& lines[2] == "\tif err != nil {"@
            &&& lines[3] == "\t\t"@ + error_return
            &&& lines[5] == "\t"@ + ("value."@ + go_field + if pointer {
                " = &converted"@
            } else {
                " = converted"@
            })
        }),
{
}

/// A model is written where there is one, and a failed conversion returns its error first.
pub proof fn law_models_are_written_where_they_are(
    conversion: crate::proto::go::GoConversionView,
    receiver: Seq<char>,
    proto_field: Seq<char>,
    pointer: bool,
    error_return: Seq<char>,
)
    requires
        conversion.kind == crate::proto::go::GoConversionKind::ModelConverter,
        conversion.fallible,
    ensures
        ({
            let lines = crate::proto::go::singular_to_proto(
                conversion,
                receiver,
                proto_field,
                pointer,
                error_return,
            );
            &&& lines.len() == 7
            &&& lines[0] == if pointer {
                "if "@ + receiver + " != nil {"@
            } else {
                "{"@
            }
            &&& lines[1] == "\tconverted, err := "@ + crate::proto::go::to_proto_text(
                conversion,
                if pointer {
                    "(*"@ + receiver + ")"@
                } else {
                    receiver
                },
            )
            &&& lines[2] == "\tif err != nil {"@
            &&& lines[3] == "\t\t"@ + error_return
            &&& lines[5] == "\tmessage."@ + proto_field + " = converted"@
        }),
{
}

/// A hand-written function gets a pointer where it takes one, and what it returns is kept as the
/// field holds it: its address, what it points to, or as it is.
pub proof fn law_overrides_keep_pointers_straight(
    conversion: crate::proto::go::GoConversionView,
    receiver: Seq<char>,
    proto_field: Seq<char>,
    go_field: Seq<char>,
    pointer: bool,
    error_return: Seq<char>,
)
    requires
        conversion.kind == crate::proto::go::GoConversionKind::OverrideConverter,
        conversion.fallible,
    ensures
        ({
            let written = crate::proto::go::singular_to_proto(
                conversion,
                receiver,
                proto_field,
                pointer,
                error_return,
            );
            let read = crate::proto::go::singular_from_proto(
                conversion,
                proto_field,
                go_field,
                pointer,
                error_return,
            );
            let getter = "proto.Get"@ + proto_field + "()"@;
            &&& written[1] == "\tconverted, err := "@ + crate::proto::go::to_proto_text(
                conversion,
                if conversion.to_proto_takes_pointer && !pointer {
                    "&"@ + receiver
                } else {
                    receiver
                },
            )
            &&& written[2] == "\tif err != nil {"@
            &&& written[3] == "\t\t"@ + error_return
            &&& written[5] == "\tmessage."@ + proto_field + " = converted"@
            &&& read[1] == "\tconverted, err := "@ + crate::proto::go::from_proto_text(conversion, getter)
            &&& read[2] == "\tif err != nil {"@
            &&& read[3] == "\t\t"@ + error_return
            &&& conversion.from_proto_returns_pointer && !pointer ==> read[5]
                == "\tif converted != nil {"@ && read[6] == "\t\tvalue."@ + go_field
                + " = *converted"@
            &&& conversion.from_proto_returns_pointer == pointer ==> read[5] == "\t"@ + ("value."@
                + go_field + " = converted"@)
            &&& !conversion.from_proto_returns_pointer && pointer ==> read[5] == "\t"@ + ("value."@
                + go_field + " = &converted"@)
        }),
{
}

/// The Go type of each scalar is its own.
pub proof fn law_scalar_types_are_their_own()
    ensures
        crate::proto::go::scalar_type_text(PlannedScalarType::Float) == "float64"@,
        crate::proto::go::scalar_type_text(PlannedScalarType::Int32) == "int32"@,
        crate::proto::go::scalar_type_text(PlannedScalarType::Int64) == "int64"@,
        crate::proto::go::scalar_type_text(PlannedScalarType::Bool) == "bool"@,
        crate::proto::go::scalar_type_text(PlannedScalarType::String) == "string"@,
        crate::proto::go::scalar_type_text(PlannedScalarType::Bytes) == "[]byte"@,
{
}

/// The zero value of a type is the one that Go gives to a variable of it.
pub proof fn law_zero_values_are_those_of_the_type(value: PlannedValueType)
    ensures
        value == PlannedValueType::Scalar(PlannedScalarType::Bool) ==> crate::proto::go::zero_value_text(value)
            == "false"@,
        value == PlannedValueType::Scalar(PlannedScalarType::String) ==> crate::proto::go::zero_value_text(value)
            == "\"\""@,
        value == PlannedValueType::Scalar(PlannedScalarType::Bytes) ==> crate::proto::go::zero_value_text(value)
            == "nil"@,
        value == PlannedValueType::Scalar(PlannedScalarType::Int32) || value
            == PlannedValueType::Scalar(PlannedScalarType::Int64) || value
            == PlannedValueType::Scalar(PlannedScalarType::Float) || value is Enum
            ==> crate::proto::go::zero_value_text(value) == "0"@,
        value is Message ==> crate::proto::go::zero_value_text(value) == "nil"@,
{
}

/// The map type of a message is made of the types of its keys and of its values.
pub proof fn law_map_types_name_keys_before_values(
    imports: crate::proto::go_imports::ImportEntries,
    key: PlannedScalarType,
    value: PlannedScalarType,
)
    ensures
        crate::proto::go::map_type_step(imports, PlannedValueType::Scalar(key), PlannedValueType::Scalar(value)).0
            == Ok::<Seq<char>, Seq<char>>("map["@ + crate::proto::go::scalar_type_text(key) + "]"@ + crate::proto::go::scalar_type_text(value)),
{
}

/// A field is written from the model's field into the message's, and read from the message's field
/// into the model's: the lines of the two directions name the same two fields.
pub proof fn law_fields_are_converted_between_the_same_fields(
    imports: crate::proto::go_imports::ImportEntries,
    field: PlannedField,
    native: Seq<char>,
)
    ensures
        ({
            let proto_field = crate::naming::upper_camel(field.proto_name@);
            let go_field = crate::naming::upper_camel(field.authored_name@);
            let step = crate::proto::go::field_step(imports, field, native).0;
            &&& step matches Ok(lines) ==> {
                &&& field.kind matches PlannedFieldKind::Repeated(value) ==> {
                    let conversion = crate::proto::go::value_step(imports, value).0;
                    &&& conversion is Ok
                    &&& lines.to_proto_lines == crate::proto::go::repeated_to_proto(
                        conversion->Ok_0,
                        "m."@ + go_field,
                        proto_field,
                        "return nil, err"@,
                    )
                    &&& lines.from_proto_lines == crate::proto::go::repeated_from_proto(
                        conversion->Ok_0,
                        proto_field,
                        go_field,
                        "return value, err"@,
                    )
                }
                &&& field.kind matches PlannedFieldKind::Mapping { key, value } ==> {
                    let conversion = crate::proto::go::value_step(imports, value).0;
                    &&& conversion is Ok
                    &&& lines.from_proto_lines == crate::proto::go::map_from_proto(
                        conversion->Ok_0,
                        native,
                        proto_field,
                        go_field,
                        "return value, err"@,
                    )
                    &&& exists|map_type: Seq<char>|
                        lines.to_proto_lines == #[trigger] crate::proto::go::map_to_proto(
                            conversion->Ok_0,
                            map_type,
                            "m."@ + go_field,
                            proto_field,
                            "return nil, err"@,
                        )
                }
                &&& field.kind matches PlannedFieldKind::Singular(value) ==> {
                    let conversion = crate::proto::go::value_step(imports, value).0;
                    &&& conversion is Ok
                    &&& lines.to_proto_lines == crate::proto::go::singular_to_proto(
                        conversion->Ok_0,
                        "m."@ + go_field,
                        proto_field,
                        crate::text::has_prefix(native, "*"@),
                        "return nil, err"@,
                    )
                    &&& field.flattened_annotation is None ==> lines.from_proto_lines
                        == crate::proto::go::singular_from_proto(
                        conversion->Ok_0,
                        proto_field,
                        go_field,
                        crate::text::has_prefix(native, "*"@),
                        "return value, err"@,
                    )
                }
            }
        }),
{
}

/// What a model's methods are: the one to the message starts with an empty message, writes every
/// field and returns the message; the one from the message starts with an empty model, reads every
/// field and returns the model.
#[verifier::rlimit(40)]
pub proof fn law_methods_write_and_read_every_field(
    model_name: Seq<char>,
    wire: RenderedModelWire,
    package: GoPackageContext,
    i: int,
)
    requires
        0 <= i < wire.field_conversions@.len(),
    ensures
        exists|writer: Seq<char>, reader: Seq<char>|
            crate::proto::go::wire_methods_text(model_name, wire, package) == #[trigger] (writer + reader)
                && crate::text::has_prefix(writer, "\nfunc (m "@ + model_name + ") toProto(ctx "@)
                && crate::json_schema::annotation::has_part(
                writer,
                crate::proto::go::body_block_text(crate::text::texts(wire.field_conversions@[i].to_proto_lines@)),
            ) && crate::json_schema::annotation::has_part(writer, "\treturn message, nil\n}\n"@)
                && crate::json_schema::annotation::has_part(
                reader,
                crate::proto::go::body_block_text(crate::text::texts(wire.field_conversions@[i].from_proto_lines@)),
            ) && crate::json_schema::annotation::has_part(reader, "\treturn value, nil\n}\n"@)
                && crate::json_schema::annotation::has_part(
                reader,
                "FromProto(ctx "@ + package.workflow_context_type@ + ", proto "@
                    + wire.proto_type@ + ") ("@ + model_name + ", error) {\n\tvalue := "@
                    + model_name + "{}\n"@,
            ),
{
    let writer = "\nfunc (m "@ + model_name + ") toProto(ctx "@ + package.workflow_context_type@
        + ") ("@ + wire.proto_type@ + ", error) {\n\tmessage := &"@ + crate::proto::go::without_stars(
        wire.proto_type@,
    ) + "{}\n"@ + crate::proto::go::to_proto_block_text(wire.field_conversions@) + crate::proto::go::sourced_block_text(
        wire.sourced_fields@,
    ) + "\treturn message, nil\n}\n"@;
    let opened = "FromProto(ctx "@ + package.workflow_context_type@ + ", proto "@ + wire.proto_type@
        + ") ("@ + model_name + ", error) {\n\tvalue := "@ + model_name + "{}\n"@;
    let named = "\nfunc "@ + crate::proto::go::unexported_name_text(crate::proto::go::declared_ident(model_name));
    let reader = named + "FromProto(ctx "@ + package.workflow_context_type@ + ", proto "@
        + wire.proto_type@ + ") ("@ + model_name + ", error) {\n\tvalue := "@ + model_name
        + "{}\n"@ + crate::proto::go::from_proto_block_text(wire.field_conversions@) + "\treturn value, nil\n}\n"@;
    assert(crate::proto::go::wire_methods_text(model_name, wire, package) == writer + reader);
    let head = "\nfunc (m "@ + model_name + ") toProto(ctx "@;
    assert(writer.take(head.len() as int) =~= head);
    let written = crate::proto::go::body_block_text(crate::text::texts(wire.field_conversions@[i].to_proto_lines@));
    let read = crate::proto::go::body_block_text(crate::text::texts(wire.field_conversions@[i].from_proto_lines@));
    lemma_field_lines_stand(wire.field_conversions@, i);
    crate::json_schema::sides::lemma_part_stays(written);
    crate::json_schema::sides::lemma_part_stays("\treturn message, nil\n}\n"@);
    crate::json_schema::sides::lemma_part_stays(read);
    crate::json_schema::sides::lemma_part_stays("\treturn value, nil\n}\n"@);
    let rest = crate::proto::go::from_proto_block_text(wire.field_conversions@) + "\treturn value, nil\n}\n"@;
    assert(reader =~= named + opened + rest);
    crate::json_schema::sides::lemma_part_of(named, opened, rest);
}

/// The lines of a field stand in the blocks of all fields.
#[verifier::rlimit(40)]
proof fn lemma_field_lines_stand(fields: Seq<RenderedFieldConversion>, i: int)
    requires
        0 <= i < fields.len(),
    ensures
        crate::json_schema::annotation::has_part(
            crate::proto::go::to_proto_block_text(fields),
            crate::proto::go::body_block_text(crate::text::texts(fields[i].to_proto_lines@)),
        ),
        crate::json_schema::annotation::has_part(
            crate::proto::go::from_proto_block_text(fields),
            crate::proto::go::body_block_text(crate::text::texts(fields[i].from_proto_lines@)),
        ),
    decreases fields.len(),
{
    let written = crate::proto::go::body_block_text(crate::text::texts(fields[i].to_proto_lines@));
    let read = crate::proto::go::body_block_text(crate::text::texts(fields[i].from_proto_lines@));
    if i < fields.len() - 1 {
        lemma_field_lines_stand(fields.drop_last(), i);
        assert(fields.drop_last()[i] == fields[i]);
    }
    crate::json_schema::sides::lemma_part_stays(written);
    crate::json_schema::sides::lemma_part_stays(read);
}

/// Each line of a body stands in it on a line of its own.
pub proof fn law_lines_stand_on_their_own(lines: Seq<Seq<char>>, i: int)
    requires
        0 <= i < lines.len(),
    ensures
        crate::json_schema::annotation::has_part(crate::proto::go::body_block_text(lines), "\t"@ + lines[i] + "\n"@),
    decreases lines.len(),
{
    let part = "\t"@ + lines[i] + "\n"@;
    if i < lines.len() - 1 {
        law_lines_stand_on_their_own(lines.drop_last(), i);
        assert(lines.drop_last()[i] == lines[i]);
    }
    crate::json_schema::sides::lemma_part_stays(part);
}

/// The request of an operation is converted to its message, and its response back: a hand-written
/// function gets the address of the request.
pub proof fn law_requests_are_written_and_responses_read(
    conversion: crate::proto::go::GoConversionView,
)
    ensures
        conversion.kind == crate::proto::go::GoConversionKind::OverrideConverter ==> crate::proto::go::request_to_proto_text(
            conversion,
        ) == conversion.to_before + "&request"@ + conversion.to_after,
        conversion.kind != crate::proto::go::GoConversionKind::OverrideConverter ==> crate::proto::go::request_to_proto_text(
            conversion,
        ) == conversion.to_before + "request"@ + conversion.to_after,
{
}

/// An operation sends the message of its request under its wire name, and answers with the error
/// of a request that cannot be converted.
pub proof fn law_operations_send_their_request(
    service: RenderedService,
    operation: RenderedOperation,
    binding: OperationBinding,
    package: GoPackageContext,
    adapter: FutureAdapter,
)
    ensures
        ({
            let text = crate::proto::go::operation_function_text(service, operation, binding, package, adapter);
            &&& crate::json_schema::annotation::has_part(
                text,
                " {\n\trequestProto, err := "@ + binding.input_to_proto@
                    + "\n\tif err != nil {\n\t\tresult, resultSettable := "@ + package.new_future@
                    + "(ctx)\n\t\tresultSettable.SetError(err)\n\t\treturn result\n\t}\n\tc := "@
                    + service.client_expr@ + "\n\tfut := c.ExecuteOperation(ctx, "@
                    + crate::json_text::json_quoted(operation.wire_name@) + ", requestProto, "@,
            )
            &&& crate::text::has_prefix(
                text,
                "func "@ + operation.func_name@ + "(ctx "@ + package.workflow_context_type@
                    + ", request "@ + operation.input_type@ + ") "@
                    + package.operation_future_type@,
            )
        }),
{
    let text = crate::proto::go::operation_function_text(service, operation, binding, package, adapter);
    let opened = "func "@ + operation.func_name@ + "(ctx "@ + package.workflow_context_type@
        + ", request "@ + operation.input_type@ + ") "@ + package.operation_future_type@;
    let sent = " {\n\trequestProto, err := "@ + binding.input_to_proto@
        + "\n\tif err != nil {\n\t\tresult, resultSettable := "@ + package.new_future@
        + "(ctx)\n\t\tresultSettable.SetError(err)\n\t\treturn result\n\t}\n\tc := "@
        + service.client_expr@ + "\n\tfut := c.ExecuteOperation(ctx, "@
        + crate::json_text::json_quoted(operation.wire_name@) + ", requestProto, "@;
    lemma_head_holds(service, operation, binding, package);
    let head = operation_head(service, operation, binding, package);
    assert(crate::text::has_prefix(text, head)) by {
        assert(text.take(head.len() as int) =~= head);
    }
    assert(text.take(opened.len() as int) =~= head.take(opened.len() as int));
    let rest = text.skip(head.len() as int);
    assert(text =~= head + rest);
    crate::json_schema::sides::lemma_part_before(head, rest, sent);
}

/// The beginning of the function of an operation.
pub open spec fn operation_head(
    service: RenderedService,
    operation: RenderedOperation,
    binding: OperationBinding,
    package: GoPackageContext,
) -> Seq<char> {
    "func "@ + operation.func_name@ + "(ctx "@ + package.workflow_context_type@ + ", request "@
        + operation.input_type@ + ") "@ + package.operation_future_type@
        + " {\n\trequestProto, err := "@ + binding.input_to_proto@
        + "\n\tif err != nil {\n\t\tresult, resultSettable := "@ + package.new_future@
        + "(ctx)\n\t\tresultSettable.SetError(err)\n\t\treturn result\n\t}\n\tc := "@
        + service.client_expr@ + "\n\tfut := c.ExecuteOperation(ctx, "@
        + crate::json_text::json_quoted(operation.wire_name@) + ", requestProto, "@
        + package.nexus_operation_options@ + ")\n"@
}

/// The beginning of the function of an operation holds what it sends.
proof fn lemma_head_holds(
    service: RenderedService,
    operation: RenderedOperation,
    binding: OperationBinding,
    package: GoPackageContext,
)
    ensures
        ({
            let head = operation_head(service, operation, binding, package);
            let opened = "func "@ + operation.func_name@ + "(ctx "@ + package.workflow_context_type@
                + ", request "@ + operation.input_type@ + ") "@ + package.operation_future_type@;
            let sent = " {\n\trequestProto, err := "@ + binding.input_to_proto@
                + "\n\tif err != nil {\n\t\tresult, resultSettable := "@ + package.new_future@
                + "(ctx)\n\t\tresultSettable.SetError(err)\n\t\treturn result\n\t}\n\tc := "@
                + service.client_expr@ + "\n\tfut := c.ExecuteOperation(ctx, "@
                + crate::json_text::json_quoted(operation.wire_name@) + ", requestProto, "@;
            &&& crate::json_schema::annotation::has_part(head, sent)
            &&& opened.len() <= head.len()
            &&& head.take(opened.len() as int) == opened
        }),
{
    let head = operation_head(service, operation, binding, package);
    let opened = "func "@ + operation.func_name@ + "(ctx "@ + package.workflow_context_type@
        + ", request "@ + operation.input_type@ + ") "@ + package.operation_future_type@;
    let sent = " {\n\trequestProto, err := "@ + binding.input_to_proto@
        + "\n\tif err != nil {\n\t\tresult, resultSettable := "@ + package.new_future@
        + "(ctx)\n\t\tresultSettable.SetError(err)\n\t\treturn result\n\t}\n\tc := "@
        + service.client_expr@ + "\n\tfut := c.ExecuteOperation(ctx, "@
        + crate::json_text::json_quoted(operation.wire_name@) + ", requestProto, "@;
    let rest = package.nexus_operation_options@ + ")\n"@;
    assert(head =~= opened + sent + rest);
    crate::json_schema::sides::lemma_part_of(opened, sent, rest);
    assert(head.take(opened.len() as int) =~= opened);
}

} // verus!
