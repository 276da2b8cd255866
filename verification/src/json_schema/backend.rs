//! The TypeScript modules of JSON models.

use vstd::prelude::*;

use crate::error::{Error, ErrorView};
use crate::generation::ApiSpecNode;
use crate::json_schema::annotation::contains_part;
use crate::json_schema::model::{
    decode_schema, render_default_constants, render_model_interface,
    render_model_transfer_type_converter, render_ts_inline_union_serializers,
};
use crate::json_schema::runtime::{render_json_runtime_module, RuntimePatterns, RuntimeUses};
use crate::json_schema::schema::{
    content_encoding_direct, effective_min_length, temporal_kind_direct, AdditionalProperties,
    Property, Schema,
};
use crate::json_schema::ts_text::{
    check_for, find_registered_name, reference_model_name, ts_pattern_const_name, ts_regex_literal,
    ts_transfer_type_converter_name, typescript_string_literal, FormatCheck, JsonModel, ReadSchema,
    RefName, TsContext,
};
use crate::output::TsDateTimeTypes;
use crate::proto::typescript::WireValueConversion;
use crate::text::{contains_text, join_texts, with_lines};

verus! {

/// What a model's code may need of the runtime module.
#[derive(Debug, Clone, Copy, PartialEq, Eq, Structural)]
pub enum Usage {
    Temporal,
    ContentEncoding,
    CodePointLength,
}

/// Whether a format is under a length.
pub open spec fn format_under_length(ctx: TsContext, schema: Schema) -> bool {
    match schema.format {
        Some(format) => match crate::json_schema::ts_text::format_check(ctx.formats@, format@) {
            Some(check) => check.max_code_points.is_some(),
            None => false,
        },
        None => false,
    }
}

/// Whether a format is under a length.
pub fn format_limits_length(ctx: &TsContext, schema: &Schema) -> (result: bool)
    ensures
        result == format_under_length(*ctx, *schema),
{
    match &schema.format {
        Some(format) => match check_for(&ctx.formats, format.as_str()) {
            Some(check) => check.max_code_points.is_some(),
            None => false,
        },
        None => false,
    }
}

/// Whether a schema itself needs something of the runtime module.
pub open spec fn own_use(ctx: TsContext, schema: Schema, usage: Usage) -> bool {
    match usage {
        Usage::Temporal => crate::json_schema::schema::temporal_kind_of(schema) is Some,
        Usage::ContentEncoding => crate::json_schema::schema::content_encoding_of(schema) is Some,
        Usage::CodePointLength => schema.max_length.is_some()
            || crate::json_schema::schema::min_length_of(schema) is Some
            || format_under_length(ctx, schema),
    }
}

/// Whether a schema itself needs something of the runtime module.
pub fn uses_directly(ctx: &TsContext, schema: &Schema, usage: Usage) -> (result: bool)
    ensures
        result == own_use(*ctx, *schema, usage),
{
    match usage {
        Usage::Temporal => temporal_kind_direct(schema).is_some(),
        Usage::ContentEncoding => content_encoding_direct(schema).is_some(),
        Usage::CodePointLength => schema.max_length.is_some()
            || effective_min_length(schema).is_some()
            || format_limits_length(ctx, schema),
    }
}

/// Whether one of the properties needs something of the runtime module.
pub open spec fn some_property_uses(ctx: TsContext, properties: Seq<Property>, usage: Usage) -> bool
    decreases properties, 0nat,
{
    if properties.len() == 0 {
        false
    } else {
        some_property_uses(ctx, properties.drop_last(), usage) || used_by(
            ctx,
            properties.last().schema,
            usage,
        )
    }
}

/// Whether one of the branches needs something of the runtime module.
pub open spec fn some_branch_uses(ctx: TsContext, branches: Seq<Schema>, usage: Usage) -> bool
    decreases branches, 0nat,
{
    if branches.len() == 0 {
        false
    } else {
        some_branch_uses(ctx, branches.drop_last(), usage) || used_by(ctx, branches.last(), usage)
    }
}

/// Whether a schema needs something of the runtime module, itself or at any place in it. Lengths
/// are also counted in the names of members and in what elements are matched with.
pub open spec fn used_by(ctx: TsContext, schema: Schema, usage: Usage) -> bool
    decreases schema, 1nat,
{
    ||| own_use(ctx, schema, usage)
    ||| match schema.properties {
        Some(properties) => some_property_uses(ctx, properties@, usage),
        None => false,
    }
    ||| match schema.items {
        Some(items) => used_by(ctx, *items, usage),
        None => false,
    }
    ||| usage == Usage::CodePointLength && match schema.contains {
        Some(matcher) => used_by(ctx, *matcher, usage),
        None => false,
    }
    ||| usage == Usage::CodePointLength && match schema.property_names {
        Some(names) => used_by(ctx, *names, usage),
        None => false,
    }
    ||| match schema.one_of {
        Some(branches) => some_branch_uses(ctx, branches@, usage),
        None => false,
    }
    ||| match schema.additional_properties {
        Some(AdditionalProperties::Matching(members)) => used_by(ctx, *members, usage),
        _ => false,
    }
}

/// Whether a schema needs something of the runtime module, itself or at any place in it.
pub fn schema_uses(ctx: &TsContext, schema: &Schema, usage: Usage) -> (used: bool)
    ensures
        used == used_by(*ctx, *schema, usage),
    decreases schema,
{
    proof {
        crate::json_schema::annotation::lemma_items_smaller(*schema);
        crate::json_schema::annotation::lemma_contains_smaller(*schema);
        crate::json_schema::annotation::lemma_names_smaller(*schema);
        crate::json_schema::annotation::lemma_members_smaller(*schema);
    }
    let mut used = uses_directly(ctx, schema, usage);
    match &schema.items {
        Some(items) => {
            used = used || schema_uses(ctx, items, usage);
        },
        None => {},
    }
    if usage == Usage::CodePointLength {
        match &schema.contains {
            Some(matcher) => {
                used = used || schema_uses(ctx, matcher, usage);
            },
            None => {},
        }
        match &schema.property_names {
            Some(names) => {
                used = used || schema_uses(ctx, names, usage);
            },
            None => {},
        }
    }
    match &schema.additional_properties {
        Some(AdditionalProperties::Matching(members)) => {
            used = used || schema_uses(ctx, members, usage);
        },
        _ => {},
    }
    match &schema.properties {
        Some(properties) => {
            let mut found = false;
            let mut i: usize = 0;
            while i < properties.len()
                invariant
                    i <= properties.len(),
                    schema.properties == Some(*properties),
                    found == some_property_uses(*ctx, properties@.take(i as int), usage),
                decreases properties.len() - i,
            {
                assert(properties@.take(i + 1).drop_last() =~= properties@.take(i as int));
                proof {
                    crate::json_schema::annotation::lemma_property_smaller(*schema, i as int);
                }
                if schema_uses(ctx, &properties[i].schema, usage) {
                    found = true;
                }
                i += 1;
            }
            assert(properties@.take(i as int) =~= properties@);
            used = used || found;
        },
        None => {},
    }
    match &schema.one_of {
        Some(branches) => {
            let mut found = false;
            let mut i: usize = 0;
            while i < branches.len()
                invariant
                    i <= branches.len(),
                    schema.one_of == Some(*branches),
                    found == some_branch_uses(*ctx, branches@.take(i as int), usage),
                decreases branches.len() - i,
            {
                assert(branches@.take(i + 1).drop_last() =~= branches@.take(i as int));
                proof {
                    crate::json_schema::annotation::lemma_branch_smaller(*schema, i as int);
                }
                if schema_uses(ctx, &branches[i], usage) {
                    found = true;
                }
                i += 1;
            }
            assert(branches@.take(i as int) =~= branches@);
            used = used || found;
        },
        None => {},
    }
    used
}

/// Whether a schema counts code points anywhere.
pub open spec fn counts_code_points(ctx: TsContext, schema: Schema) -> bool {
    used_by(ctx, schema, Usage::CodePointLength)
}

/// Whether a schema counts code points anywhere.
pub fn schema_uses_code_point_length(ctx: &TsContext, schema: &Schema) -> (result: bool)
    ensures
        result == counts_code_points(*ctx, *schema),
{
    schema_uses(ctx, schema, Usage::CodePointLength)
}

/// Whether a schema holds bytes anywhere.
pub open spec fn holds_bytes(ctx: TsContext, schema: Schema) -> bool {
    used_by(ctx, schema, Usage::ContentEncoding)
}

/// Whether a schema holds bytes anywhere.
pub fn schema_uses_content_encoding(ctx: &TsContext, schema: &Schema) -> (result: bool)
    ensures
        result == holds_bytes(*ctx, *schema),
{
    schema_uses(ctx, schema, Usage::ContentEncoding)
}

/// Whether a schema holds temporal values anywhere.
pub open spec fn holds_temporal(ctx: TsContext, schema: Schema) -> bool {
    used_by(ctx, schema, Usage::Temporal)
}

/// Whether a schema holds temporal values anywhere.
pub fn schema_uses_temporal(ctx: &TsContext, schema: &Schema) -> (result: bool)
    ensures
        result == holds_temporal(*ctx, *schema),
{
    schema_uses(ctx, schema, Usage::Temporal)
}

/// Whether a model counts code points anywhere.
pub open spec fn model_counts_code_points(ctx: TsContext, model: JsonModel) -> bool {
    match model.schema {
        ReadSchema::Read(schema) => counts_code_points(ctx, schema),
        ReadSchema::Unreadable(_) => false,
    }
}

/// Whether a model counts code points anywhere.
pub fn model_uses_code_point_length(ctx: &TsContext, model: &JsonModel) -> (result: bool)
    ensures
        result == model_counts_code_points(*ctx, *model),
{
    match &model.schema {
        ReadSchema::Read(schema) => schema_uses_code_point_length(ctx, schema),
        ReadSchema::Unreadable(_) => false,
    }
}

/// Whether a model holds bytes anywhere.
pub open spec fn model_holds_bytes(ctx: TsContext, model: JsonModel) -> bool {
    match model.schema {
        ReadSchema::Read(schema) => holds_bytes(ctx, schema),
        ReadSchema::Unreadable(_) => false,
    }
}

/// Whether a model holds bytes anywhere.
pub fn model_uses_content_encoding(ctx: &TsContext, model: &JsonModel) -> (result: bool)
    ensures
        result == model_holds_bytes(*ctx, *model),
{
    match &model.schema {
        ReadSchema::Read(schema) => schema_uses_content_encoding(ctx, schema),
        ReadSchema::Unreadable(_) => false,
    }
}

/// Whether a model holds temporal values anywhere.
pub open spec fn model_holds_temporal(ctx: TsContext, model: JsonModel) -> bool {
    match model.schema {
        ReadSchema::Read(schema) => holds_temporal(ctx, schema),
        ReadSchema::Unreadable(_) => false,
    }
}

/// Whether a model holds temporal values anywhere.
pub fn model_uses_temporal(ctx: &TsContext, model: &JsonModel) -> (result: bool)
    ensures
        result == model_holds_temporal(*ctx, *model),
{
    match &model.schema {
        ReadSchema::Read(schema) => schema_uses_temporal(ctx, schema),
        ReadSchema::Unreadable(_) => false,
    }
}

/// What models need of the runtime module.
pub open spec fn runtime_uses(ctx: TsContext, models: Seq<JsonModel>) -> RuntimeUses {
    RuntimeUses {
        temporal: exists|i: int|
            0 <= i < models.len() && model_holds_temporal(ctx, #[trigger] models[i]),
        content_encoding: exists|i: int|
            0 <= i < models.len() && model_holds_bytes(ctx, #[trigger] models[i]),
        code_point_length: exists|i: int|
            0 <= i < models.len() && model_counts_code_points(ctx, #[trigger] models[i]),
    }
}

/// What models need of the runtime module.
pub fn find_runtime_uses(ctx: &TsContext, models: &Vec<JsonModel>) -> (uses: RuntimeUses)
    ensures
        uses == runtime_uses(*ctx, models@),
{
    let mut temporal = false;
    let mut content_encoding = false;
    let mut code_point_length = false;
    let mut i: usize = 0;
    while i < models.len()
        invariant
            i <= models.len(),
            temporal == exists|k: int|
                0 <= k < i && model_holds_temporal(*ctx, #[trigger] models@[k]),
            content_encoding == exists|k: int|
                0 <= k < i && model_holds_bytes(*ctx, #[trigger] models@[k]),
            code_point_length == exists|k: int|
                0 <= k < i && model_counts_code_points(*ctx, #[trigger] models@[k]),
        decreases models.len() - i,
    {
        if model_uses_temporal(ctx, &models[i]) {
            temporal = true;
        }
        if model_uses_content_encoding(ctx, &models[i]) {
            content_encoding = true;
        }
        if model_uses_code_point_length(ctx, &models[i]) {
            code_point_length = true;
        }
        i += 1;
    }
    RuntimeUses { temporal, content_encoding, code_point_length }
}

/// The pattern of a format, where it has one.
pub open spec fn format_pattern_texts(ctx: TsContext, schema: Schema) -> Seq<Seq<char>> {
    match schema.format {
        Some(format) => match crate::json_schema::ts_text::format_check(ctx.formats@, format@) {
            Some(check) => seq![check.pattern@],
            None => Seq::<Seq<char>>::empty(),
        },
        None => Seq::<Seq<char>>::empty(),
    }
}

/// The pattern of a format, where it has one.
pub fn format_patterns(ctx: &TsContext, schema: &Schema) -> (result: Vec<String>)
    ensures
        crate::text::texts(result@) == format_pattern_texts(*ctx, *schema),
{
    match &schema.format {
        Some(format) => match check_for(&ctx.formats, format.as_str()) {
            Some(check) => vec![check.pattern.clone()],
            None => Vec::new(),
        },
        None => Vec::new(),
    }
}

/// The patterns that a schema itself is checked by.
pub open spec fn own_pattern_texts(ctx: TsContext, schema: Schema) -> Seq<Seq<char>> {
    let formats = format_pattern_texts(ctx, schema);
    match schema.pattern {
        Some(pattern) => {
            let own = seq![pattern@];
            own + formats
        },
        None => formats,
    }
}

/// The patterns that a schema itself is checked by.
pub fn own_patterns(ctx: &TsContext, schema: &Schema) -> (result: Vec<String>)
    ensures
        crate::text::texts(result@) == own_pattern_texts(*ctx, *schema),
{
    let formats = format_patterns(ctx, schema);
    match &schema.pattern {
        Some(pattern) => {
            let own = vec![pattern.clone()];
            with_lines(own, formats)
        },
        None => formats,
    }
}

/// The patterns of properties.
pub open spec fn property_patterns(ctx: TsContext, properties: Seq<Property>) -> Seq<Seq<char>>
    decreases properties, 0nat,
{
    if properties.len() == 0 {
        Seq::empty()
    } else {
        property_patterns(ctx, properties.drop_last()) + patterns_of(
            ctx,
            properties.last().schema,
        )
    }
}

/// The patterns of branches.
pub open spec fn branch_patterns(ctx: TsContext, branches: Seq<Schema>) -> Seq<Seq<char>>
    decreases branches, 0nat,
{
    if branches.len() == 0 {
        Seq::empty()
    } else {
        branch_patterns(ctx, branches.drop_last()) + patterns_of(ctx, branches.last())
    }
}

/// The patterns that the values of a schema are checked by, at every place in it.
pub open spec fn patterns_of(ctx: TsContext, schema: Schema) -> Seq<Seq<char>>
    decreases schema, 1nat,
{
    own_pattern_texts(ctx, schema) + (match schema.properties {
            Some(properties) => property_patterns(ctx, properties@),
            None => Seq::empty(),
    }) + (match schema.items {
            Some(items) => patterns_of(ctx, *items),
            None => Seq::empty(),
    }) + (match schema.contains {
            Some(matcher) => patterns_of(ctx, *matcher),
            None => Seq::empty(),
    }) + (match schema.one_of {
            Some(branches) => branch_patterns(ctx, branches@),
            None => Seq::empty(),
    }) + (match schema.property_names {
            Some(names) => patterns_of(ctx, *names),
            None => Seq::empty(),
    }) + (match schema.additional_properties {
            Some(AdditionalProperties::Matching(members)) => patterns_of(ctx, *members),
            _ => Seq::empty(),
    })
}

/// The patterns that the values of a schema are checked by, at every place in it.
pub fn collect_schema_patterns(ctx: &TsContext, schema: &Schema) -> (patterns: Vec<String>)
    ensures
        crate::text::texts(patterns@) == patterns_of(*ctx, *schema),
    decreases schema,
{
    broadcast use crate::text::group_texts;

    proof {
        crate::json_schema::annotation::lemma_items_smaller(*schema);
        crate::json_schema::annotation::lemma_contains_smaller(*schema);
        crate::json_schema::annotation::lemma_names_smaller(*schema);
        crate::json_schema::annotation::lemma_members_smaller(*schema);
    }
    let own = own_patterns(ctx, schema);
    let declared: Vec<String> = match &schema.properties {
        Some(properties) => {
            let mut found: Vec<String> = Vec::new();
            let mut i: usize = 0;
            while i < properties.len()
                invariant
                    i <= properties.len(),
                    schema.properties == Some(*properties),
                    crate::text::texts(found@) == property_patterns(
                        *ctx,
                        properties@.take(i as int),
                    ),
                decreases properties.len() - i,
            {
                assert(properties@.take(i + 1).drop_last() =~= properties@.take(i as int));
                proof {
                    crate::json_schema::annotation::lemma_property_smaller(*schema, i as int);
                }
                let more = collect_schema_patterns(ctx, &properties[i].schema);
                found = with_lines(found, more);
                i += 1;
            }
            assert(properties@.take(i as int) =~= properties@);
            found
        },
        None => Vec::new(),
    };
    let items: Vec<String> = match &schema.items {
        Some(items) => collect_schema_patterns(ctx, items),
        None => Vec::new(),
    };
    let matched: Vec<String> = match &schema.contains {
        Some(matcher) => collect_schema_patterns(ctx, matcher),
        None => Vec::new(),
    };
    let branched: Vec<String> = match &schema.one_of {
        Some(branches) => {
            let mut found: Vec<String> = Vec::new();
            let mut i: usize = 0;
            while i < branches.len()
                invariant
                    i <= branches.len(),
                    schema.one_of == Some(*branches),
                    crate::text::texts(found@) == branch_patterns(*ctx, branches@.take(i as int)),
                decreases branches.len() - i,
            {
                assert(branches@.take(i + 1).drop_last() =~= branches@.take(i as int));
                proof {
                    crate::json_schema::annotation::lemma_branch_smaller(*schema, i as int);
                }
                let more = collect_schema_patterns(ctx, &branches[i]);
                found = with_lines(found, more);
                i += 1;
            }
            assert(branches@.take(i as int) =~= branches@);
            found
        },
        None => Vec::new(),
    };
    let named: Vec<String> = match &schema.property_names {
        Some(names) => collect_schema_patterns(ctx, names),
        None => Vec::new(),
    };
    let others: Vec<String> = match &schema.additional_properties {
        Some(AdditionalProperties::Matching(members)) => collect_schema_patterns(ctx, members),
        _ => Vec::new(),
    };
    let first = with_lines(with_lines(with_lines(own, declared), items), matched);
    with_lines(with_lines(with_lines(first, branched), named), others)
}

/// Whether every text of one list stands in another.
pub open spec fn all_within(part: Seq<Seq<char>>, whole: Seq<Seq<char>>) -> bool {
    forall|i: int| 0 <= i < part.len() ==> whole.contains(#[trigger] part[i])
}

proof fn lemma_within_sum(part: Seq<Seq<char>>, before: Seq<Seq<char>>, after: Seq<Seq<char>>)
    ensures
        all_within(part, before + part + after),
{
    assert forall|i: int| 0 <= i < part.len() implies (before + part + after).contains(
        #[trigger] part[i],
    ) by {
        assert((before + part + after)[before.len() + i] == part[i]);
    }
}

proof fn lemma_property_patterns_within(ctx: TsContext, properties: Seq<Property>, k: int)
    requires
        0 <= k < properties.len(),
    ensures
        all_within(patterns_of(ctx, properties[k].schema), property_patterns(ctx, properties)),
    decreases properties.len(),
{
    let front = properties.drop_last();
    let own = patterns_of(ctx, properties.last().schema);
    if k == properties.len() - 1 {
        lemma_within_sum(own, property_patterns(ctx, front), Seq::empty());
        assert(property_patterns(ctx, front) + own + Seq::empty() =~= property_patterns(
            ctx,
            properties,
        ));
    } else {
        lemma_property_patterns_within(ctx, front, k);
        let part = patterns_of(ctx, properties[k].schema);
        assert forall|i: int| 0 <= i < part.len() implies property_patterns(
            ctx,
            properties,
        ).contains(#[trigger] part[i]) by {
            assert(front[k] == properties[k]);
            let whole = property_patterns(ctx, front);
            let j = choose|j: int| 0 <= j < whole.len() && whole[j] == part[i];
            assert(property_patterns(ctx, properties)[j] == part[i]);
        }
    }
}

proof fn lemma_branch_patterns_within(ctx: TsContext, branches: Seq<Schema>, k: int)
    requires
        0 <= k < branches.len(),
    ensures
        all_within(patterns_of(ctx, branches[k]), branch_patterns(ctx, branches)),
    decreases branches.len(),
{
    let front = branches.drop_last();
    let own = patterns_of(ctx, branches.last());
    if k == branches.len() - 1 {
        lemma_within_sum(own, branch_patterns(ctx, front), Seq::empty());
        assert(branch_patterns(ctx, front) + own + Seq::empty() =~= branch_patterns(ctx, branches));
    } else {
        lemma_branch_patterns_within(ctx, front, k);
        let part = patterns_of(ctx, branches[k]);
        assert forall|i: int| 0 <= i < part.len() implies branch_patterns(ctx, branches).contains(
            #[trigger] part[i],
        ) by {
            assert(front[k] == branches[k]);
            let whole = branch_patterns(ctx, front);
            let j = choose|j: int| 0 <= j < whole.len() && whole[j] == part[i];
            assert(branch_patterns(ctx, branches)[j] == part[i]);
        }
    }
}

proof fn lemma_within_transitive(a: Seq<Seq<char>>, b: Seq<Seq<char>>, c: Seq<Seq<char>>)
    requires
        all_within(a, b),
        all_within(b, c),
    ensures
        all_within(a, c),
{
    assert forall|i: int| 0 <= i < a.len() implies c.contains(#[trigger] a[i]) by {
        let j = choose|j: int| 0 <= j < b.len() && b[j] == a[i];
        assert(c.contains(b[j]));
    }
}

proof fn lemma_parts_within(
    a: Seq<Seq<char>>,
    b: Seq<Seq<char>>,
    c: Seq<Seq<char>>,
    d: Seq<Seq<char>>,
    e: Seq<Seq<char>>,
    f: Seq<Seq<char>>,
    g: Seq<Seq<char>>,
)
    ensures
        all_within(a, a + b + c + d + e + f + g),
        all_within(b, a + b + c + d + e + f + g),
        all_within(c, a + b + c + d + e + f + g),
        all_within(d, a + b + c + d + e + f + g),
        all_within(e, a + b + c + d + e + f + g),
        all_within(f, a + b + c + d + e + f + g),
        all_within(g, a + b + c + d + e + f + g),
{
    let empty: Seq<Seq<char>> = Seq::empty();
    lemma_within_sum(g, a + b + c + d + e + f, empty);
    assert(a + b + c + d + e + f + g + empty =~= a + b + c + d + e + f + g);
    lemma_within_sum(f, a + b + c + d + e, g);
    lemma_within_sum(e, a + b + c + d, f + g);
    assert(a + b + c + d + e + (f + g) =~= a + b + c + d + e + f + g);
    lemma_within_sum(d, a + b + c, e + f + g);
    assert(a + b + c + d + (e + f + g) =~= a + b + c + d + e + f + g);
    lemma_within_sum(c, a + b, d + e + f + g);
    assert(a + b + c + (d + e + f + g) =~= a + b + c + d + e + f + g);
    lemma_within_sum(b, a, c + d + e + f + g);
    assert(a + b + (c + d + e + f + g) =~= a + b + c + d + e + f + g);
    lemma_within_sum(a, empty, b + c + d + e + f + g);
    assert(empty + a + (b + c + d + e + f + g) =~= a + b + c + d + e + f + g);
}

/// Every pattern that a place of a schema is checked by is among the patterns of the schema: its
/// own, and those of each schema directly inside it.
pub proof fn law_patterns_reach_every_place(ctx: TsContext, schema: Schema)
    ensures
        all_within(own_pattern_texts(ctx, schema), patterns_of(ctx, schema)),
        schema.properties matches Some(properties) ==> forall|k: int|
            0 <= k < properties@.len() ==> all_within(
                patterns_of(ctx, (#[trigger] properties@[k]).schema),
                patterns_of(ctx, schema),
            ),
        schema.items matches Some(items) ==> all_within(
            patterns_of(ctx, *items),
            patterns_of(ctx, schema),
        ),
        schema.contains matches Some(matcher) ==> all_within(
            patterns_of(ctx, *matcher),
            patterns_of(ctx, schema),
        ),
        schema.one_of matches Some(branches) ==> forall|k: int|
            0 <= k < branches@.len() ==> all_within(
                patterns_of(ctx, #[trigger] branches@[k]),
                patterns_of(ctx, schema),
            ),
        schema.property_names matches Some(names) ==> all_within(
            patterns_of(ctx, *names),
            patterns_of(ctx, schema),
        ),
        schema.additional_properties matches Some(AdditionalProperties::Matching(members))
            ==> all_within(patterns_of(ctx, *members), patterns_of(ctx, schema)),
{
    let own = own_pattern_texts(ctx, schema);
    let declared = match schema.properties {
        Some(properties) => property_patterns(ctx, properties@),
        None => Seq::empty(),
    };
    let items = match schema.items {
        Some(items) => patterns_of(ctx, *items),
        None => Seq::empty(),
    };
    let matched = match schema.contains {
        Some(matcher) => patterns_of(ctx, *matcher),
        None => Seq::empty(),
    };
    let branched = match schema.one_of {
        Some(branches) => branch_patterns(ctx, branches@),
        None => Seq::empty(),
    };
    let named = match schema.property_names {
        Some(names) => patterns_of(ctx, *names),
        None => Seq::empty(),
    };
    let others = match schema.additional_properties {
        Some(AdditionalProperties::Matching(members)) => patterns_of(ctx, *members),
        _ => Seq::empty(),
    };
    let all = patterns_of(ctx, schema);
    assert(all == own + declared + items + matched + branched + named + others);
    lemma_parts_within(own, declared, items, matched, branched, named, others);
    match schema.properties {
        Some(properties) => {
            assert forall|k: int| 0 <= k < properties@.len() implies all_within(
                patterns_of(ctx, (#[trigger] properties@[k]).schema),
                all,
            ) by {
                lemma_property_patterns_within(ctx, properties@, k);
                lemma_within_transitive(patterns_of(ctx, properties@[k].schema), declared, all);
            }
        },
        None => {},
    }
    match schema.one_of {
        Some(branches) => {
            assert forall|k: int| 0 <= k < branches@.len() implies all_within(
                patterns_of(ctx, #[trigger] branches@[k]),
                all,
            ) by {
                lemma_branch_patterns_within(ctx, branches@, k);
                lemma_within_transitive(patterns_of(ctx, branches@[k]), branched, all);
            }
        },
        None => {},
    }
}

/// The names of the constants of patterns.
pub open spec fn pattern_names(patterns: Seq<Seq<char>>) -> Seq<Seq<char>> {
    patterns.map_values(|pattern: Seq<char>| crate::json_schema::ts_text::pattern_const(pattern))
}

/// The patterns without those whose constant an earlier one has.
pub open spec fn kept_patterns(patterns: Seq<Seq<char>>) -> Seq<Seq<char>>
    decreases patterns.len(),
{
    if patterns.len() == 0 {
        Seq::empty()
    } else {
        let before = kept_patterns(patterns.drop_last());
        if pattern_names(before).contains(
            crate::json_schema::ts_text::pattern_const(patterns.last()),
        ) {
            before
        } else {
            before.push(patterns.last())
        }
    }
}

/// Every pattern has a constant, and no constant is declared twice.
pub proof fn law_pattern_constants_are_declared_once(patterns: Seq<Seq<char>>)
    ensures
        pattern_names(kept_patterns(patterns)).no_duplicates(),
        forall|i: int|
            0 <= i < patterns.len() ==> pattern_names(kept_patterns(patterns)).contains(
                crate::json_schema::ts_text::pattern_const(#[trigger] patterns[i]),
            ),
    decreases patterns.len(),
{
    if patterns.len() > 0 {
        let front = patterns.drop_last();
        law_pattern_constants_are_declared_once(front);
        let before = kept_patterns(front);
        let name = crate::json_schema::ts_text::pattern_const(patterns.last());
        assert(pattern_names(before.push(patterns.last())) =~= pattern_names(before).push(name));
        let names = pattern_names(kept_patterns(patterns));
        assert forall|i: int| 0 <= i < patterns.len() implies names.contains(
            crate::json_schema::ts_text::pattern_const(#[trigger] patterns[i]),
        ) by {
            if i < patterns.len() - 1 {
                assert(front[i] == patterns[i]);
                let wanted = crate::json_schema::ts_text::pattern_const(front[i]);
                assert(pattern_names(before).contains(wanted));
                let j = choose|j: int|
                    0 <= j < pattern_names(before).len() && pattern_names(before)[j] == wanted;
                assert(names[j] == wanted);
            } else if !pattern_names(before).contains(name) {
                assert(names[before.len() as int] == name);
            }
        }
    }
}

/// How one more pattern changes those that are kept.
proof fn lemma_kept_step(patterns: Seq<Seq<char>>, i: int)
    requires
        0 <= i < patterns.len(),
    ensures
        ({
            let kept = kept_patterns(patterns.take(i));
            let name = crate::json_schema::ts_text::pattern_const(patterns[i]);
            if pattern_names(kept).contains(name) {
                kept_patterns(patterns.take(i + 1)) == kept
            } else {
                &&& kept_patterns(patterns.take(i + 1)) == kept.push(patterns[i])
                &&& pattern_names(kept.push(patterns[i])) == pattern_names(kept).push(name)
            }
        }),
{
    let kept = kept_patterns(patterns.take(i));
    let name = crate::json_schema::ts_text::pattern_const(patterns[i]);
    assert(patterns.take(i + 1).drop_last() =~= patterns.take(i));
    assert(pattern_names(kept.push(patterns[i])) =~= pattern_names(kept).push(name));
}

fn keep_patterns(patterns: &Vec<String>) -> (kept: Vec<String>)
    ensures
        crate::text::texts(kept@) == kept_patterns(crate::text::texts(patterns@)),
{
    let ghost all = crate::text::texts(patterns@);
    let mut kept: Vec<String> = Vec::new();
    let mut names: Vec<String> = Vec::new();
    let mut i: usize = 0;
    proof {
        assert(crate::text::texts(kept@) =~= kept_patterns(all.take(0)));
        assert(crate::text::texts(names@) =~= pattern_names(kept_patterns(all.take(0))));
    }
    while i < patterns.len()
        invariant
            i <= patterns.len(),
            all == crate::text::texts(patterns@),
            crate::text::texts(kept@) == kept_patterns(all.take(i as int)),
            crate::text::texts(names@) == pattern_names(kept_patterns(all.take(i as int))),
        decreases patterns.len() - i,
    {
        proof {
            lemma_kept_step(all, i as int);
        }
        let name = ts_pattern_const_name(patterns[i].as_str());
        if !contains_text(&names, name.as_str()) {
            let pattern = patterns[i].clone();
            proof {
                crate::text::lemma_texts_push(kept@, pattern);
                crate::text::lemma_texts_push(names@, name);
            }
            kept.push(pattern);
            names.push(name);
        }
        i += 1;
    }
    assert(all.take(i as int) =~= all);
    kept
}

/// The declarations of the constants of patterns.
pub open spec fn pattern_declaration_texts(patterns: Seq<Seq<char>>) -> Seq<char>
    decreases patterns.len(),
{
    if patterns.len() == 0 {
        Seq::empty()
    } else {
        let pattern = patterns.last();
        pattern_declaration_texts(patterns.drop_last()) + (
            {
                let name = crate::json_schema::ts_text::pattern_const(pattern);
                match crate::json_schema::ts_text::regex_literal(pattern) {
                    Some(literal) => "const "@ + name + " = "@ + literal + ";\n"@,
                    None => "const "@ + name + " = new RegExp("@
                        + crate::json_schema::ts_text::string_literal(pattern) + ", \"u\");\n"@,
                }
            }
        )
    }
}

/// The declarations of the constants of patterns.
pub fn pattern_declarations(patterns: &Vec<String>) -> (result: String)
    ensures
        result@ == pattern_declaration_texts(crate::text::texts(patterns@)),
{
    let mut result: String = String::new();
    let mut i: usize = 0;
    while i < patterns.len()
        invariant
            i <= patterns.len(),
            result@ == pattern_declaration_texts(crate::text::texts(patterns@).take(i as int)),
        decreases patterns.len() - i,
    {
        proof {
            assert(
                crate::text::texts(patterns@).take(i + 1).drop_last()
                    =~= crate::text::texts(patterns@).take(i as int)
            );
            assert(
                crate::text::texts(patterns@).take(i + 1).last()
                    == crate::text::texts(patterns@)[i as int]
            );
        }
        let pattern = patterns[i].as_str();
        let part = {
        let name = ts_pattern_const_name(pattern);
        match ts_regex_literal(pattern) {
            Some(literal) => "const ".to_owned().concat(name.as_str()).concat(" = ")
                .concat(literal.as_str()).concat(";\n"),
            None => "const ".to_owned().concat(name.as_str()).concat(" = new RegExp(")
                .concat(typescript_string_literal(pattern).as_str()).concat(", \"u\");\n"),
        }
        };
        result.append(part.as_str());
        i += 1;
    }
    proof {
        crate::text::lemma_take_all(crate::text::texts(patterns@));
    }
    result
}

/// The patterns of models, or the first error among their schemas.
pub open spec fn model_patterns(ctx: TsContext, models: Seq<JsonModel>) -> Result<
    Seq<Seq<char>>,
    ErrorView,
>
    decreases models.len(),
{
    if models.len() == 0 {
        Ok(Seq::empty())
    } else {
        match model_patterns(ctx, models.drop_last()) {
            Err(error) => Err(error),
            Ok(before) => match crate::json_schema::model::decoded(models.last()) {
                Ok(schema) => Ok(before + patterns_of(ctx, schema)),
                Err(error) => Err(error),
            },
        }
    }
}

proof fn lemma_model_patterns_error(ctx: TsContext, models: Seq<JsonModel>, count: int)
    requires
        0 <= count <= models.len(),
        model_patterns(ctx, models.take(count)) is Err,
    ensures
        model_patterns(ctx, models) == model_patterns(ctx, models.take(count)),
    decreases models.len() - count,
{
    if count == models.len() {
        assert(models.take(count) =~= models);
    } else {
        assert(models.take(count + 1).drop_last() =~= models.take(count));
        lemma_model_patterns_error(ctx, models, count + 1);
    }
}

fn collect_model_patterns(ctx: &TsContext, models: &Vec<JsonModel>) -> (result: Result<
    Vec<String>,
    Error,
>)
    ensures
        match (result, model_patterns(*ctx, models@)) {
            (Ok(found), Ok(wanted)) => crate::text::texts(found@) == wanted,
            (Err(error), Err(wanted)) => error@ == wanted,
            _ => false,
        },
{
    broadcast use crate::text::group_texts;

    let mut patterns: Vec<String> = Vec::new();
    let mut i: usize = 0;
    assert(crate::text::texts(patterns@) =~= Seq::empty());
    while i < models.len()
        invariant
            i <= models.len(),
            model_patterns(*ctx, models@.take(i as int)) == Ok::<Seq<Seq<char>>, ErrorView>(
                crate::text::texts(patterns@),
            ),
        decreases models.len() - i,
    {
        assert(models@.take(i + 1).drop_last() =~= models@.take(i as int));
        match decode_schema(&models[i]) {
            Ok(schema) => {
                let more = collect_schema_patterns(ctx, schema);
                patterns = with_lines(patterns, more);
            },
            Err(error) => {
                proof {
                    lemma_model_patterns_error(*ctx, models@, i + 1);
                }
                return Err(error);
            },
        }
        i += 1;
    }
    assert(models@.take(i as int) =~= models@);
    Ok(patterns)
}

/// The constants of the patterns of a module.
pub open spec fn pattern_constants(
    ctx: TsContext,
    models: Seq<JsonModel>,
) -> Result<Seq<char>, ErrorView> {
    match model_patterns(ctx, models) {
        Ok(patterns) => {
            let kept = kept_patterns(patterns);
            let declarations = pattern_declaration_texts(kept);
            if kept.len() == 0 {
                Ok(Seq::<char>::empty())
            } else {
                Ok("\n"@ + declarations)
            }
        },
        Err(error) => Err(error),
    }
}

/// The constants of the patterns of a module.
pub fn render_pattern_regexes(
    ctx: &TsContext,
    models: &Vec<JsonModel>,
) -> (result: Result<String, Error>)
    ensures
        crate::output::text_outcome(result) == pattern_constants(*ctx, models@),
{
    match collect_model_patterns(ctx, models) {
        Ok(patterns) => {
            let kept = keep_patterns(&patterns);
            let declarations = pattern_declarations(&kept);
            if kept.len() == 0 {
                Ok(String::new())
            } else {
                Ok("\n".to_owned().concat(declarations.as_str()))
            }
        },
        Err(error) => Err(error),
    }
}

/// Whether a model's converter can be declared: it is no alias, or the converter that it is an
/// alias of is imported or has been declared.
pub open spec fn converter_ready(
    ctx: TsContext,
    models: Seq<JsonModel>,
    model: JsonModel,
    declared: Seq<Seq<char>>,
) -> bool {
    match model.bare_reference {
        Some(reference) => {
            let target = crate::json_schema::ts_text::referenced_model(ctx, reference@);
            !model_names(models).contains(target) || declared.contains(target)
        },
        None => true,
    }
}

/// The names of models.
pub open spec fn model_names(models: Seq<JsonModel>) -> Seq<Seq<char>> {
    models.map_values(|model: JsonModel| model.model_name@)
}

/// The place of the first pending model whose converter can be declared.
pub open spec fn first_ready(
    ctx: TsContext,
    models: Seq<JsonModel>,
    pending: Seq<int>,
    declared: Seq<Seq<char>>,
    count: nat,
) -> Option<int>
    decreases count,
{
    if count == 0 {
        None
    } else {
        match first_ready(ctx, models, pending, declared, (count - 1) as nat) {
            Some(k) => Some(k),
            None => if converter_ready(ctx, models, models[pending[count - 1]], declared) {
                Some(count - 1)
            } else {
                None
            },
        }
    }
}

/// The order in which the converters of pending models are declared, by the indices of the
/// models; or the models that wait for each other.
pub open spec fn order_from(
    ctx: TsContext,
    models: Seq<JsonModel>,
    pending: Seq<int>,
    declared: Seq<Seq<char>>,
) -> Result<Seq<int>, Seq<int>>
    decreases pending.len(),
{
    if pending.len() == 0 {
        Ok(Seq::empty())
    } else {
        match first_ready(ctx, models, pending, declared, pending.len()) {
            Some(k) => if 0 <= k < pending.len() {
                match order_from(
                    ctx,
                    models,
                    pending.remove(k),
                    declared.push(models[pending[k]].model_name@),
                ) {
                    Ok(rest) => Ok(seq![pending[k]] + rest),
                    Err(waiting) => Err(waiting),
                }
            } else {
                Err(pending)
            },
            None => Err(pending),
        }
    }
}

/// The order in which the converters of models are declared: an alias after the model that it is
/// an alias of.
pub open spec fn converter_order(ctx: TsContext, models: Seq<JsonModel>) -> Result<
    Seq<int>,
    Seq<int>,
> {
    order_from(ctx, models, Seq::new(models.len(), |i: int| i), Seq::empty())
}

proof fn lemma_first_ready(
    ctx: TsContext,
    models: Seq<JsonModel>,
    pending: Seq<int>,
    declared: Seq<Seq<char>>,
    count: nat,
)
    ensures
        match first_ready(ctx, models, pending, declared, count) {
            Some(k) => 0 <= k < count && converter_ready(ctx, models, models[pending[k]], declared),
            None => forall|i: int|
                0 <= i < count ==> !converter_ready(
                    ctx,
                    models,
                    models[#[trigger] pending[i]],
                    declared,
                ),
        },
    decreases count,
{
    if count > 0 {
        lemma_first_ready(ctx, models, pending, declared, (count - 1) as nat);
    }
}

/// Whether each model of an order is ready after those that stand before it.
pub open spec fn declared_in_order(
    ctx: TsContext,
    models: Seq<JsonModel>,
    order: Seq<int>,
    declared: Seq<Seq<char>>,
) -> bool {
    forall|i: int|
        0 <= i < order.len() ==> converter_ready(
        ctx,
        models,
        models[#[trigger] order[i]],
        declared + names_at(models, order.take(i)),
    )
}

/// The names of the models at indices.
pub open spec fn names_at(models: Seq<JsonModel>, indices: Seq<int>) -> Seq<Seq<char>> {
    indices.map_values(|i: int| models[i].model_name@)
}

proof fn lemma_order_from(
    ctx: TsContext,
    models: Seq<JsonModel>,
    pending: Seq<int>,
    declared: Seq<Seq<char>>,
)
    ensures
        order_from(ctx, models, pending, declared) matches Ok(order) ==> {
            &&& order.to_multiset() == pending.to_multiset()
            &&& declared_in_order(ctx, models, order, declared)
        },
        order_from(ctx, models, pending, declared) matches Err(waiting) ==> {
            &&& waiting.len() > 0
            &&& forall|i: int|
                0 <= i < waiting.len() ==> pending.contains(#[trigger] waiting[i])
        },
    decreases pending.len(),
{
    broadcast use vstd::seq_lib::group_to_multiset_ensures;

    if pending.len() == 0 {
        assert(pending =~= Seq::empty());
    } else {
        lemma_first_ready(ctx, models, pending, declared, pending.len());
        match first_ready(ctx, models, pending, declared, pending.len()) {
            Some(k) => {
                let rest = pending.remove(k);
                let name = models[pending[k]].model_name@;
                let more = declared.push(name);
                lemma_order_from(ctx, models, rest, more);
                match order_from(ctx, models, rest, more) {
                    Ok(tail) => {
                        let order = seq![pending[k]] + tail;
                        assert(order.remove(0) =~= tail);
                        vstd::seq_lib::to_multiset_remove(order, 0);
                        vstd::seq_lib::to_multiset_remove(pending, k);
                        assert(order[0] == pending[k]);
                        assert(order.contains(pending[k]));
                        assert(pending.contains(pending[k]));
                        assert(order.to_multiset() =~= pending.to_multiset()) by {
                            assert(order.to_multiset() =~= tail.to_multiset().insert(pending[k]));
                            assert(pending.to_multiset() =~= rest.to_multiset().insert(pending[k]));
                        }
                        assert forall|i: int| 0 <= i < order.len() implies converter_ready(
                            ctx,
                            models,
                            models[#[trigger] order[i]],
                            declared + names_at(models, order.take(i)),
                        ) by {
                            if i == 0 {
                                assert(declared + names_at(models, order.take(0)) =~= declared);
                            } else {
                                assert(order[i] == tail[i - 1]);
                                assert(converter_ready(
                                    ctx,
                                    models,
                                    models[tail[i - 1]],
                                    more + names_at(models, tail.take(i - 1)),
                                ));
                                assert(declared + names_at(models, order.take(i)) =~= more
                                    + names_at(models, tail.take(i - 1)));
                            }
                        }
                    },
                    Err(waiting) => {
                        assert forall|i: int| 0 <= i < waiting.len() implies pending.contains(
                            #[trigger] waiting[i],
                        ) by {
                            assert(rest.contains(waiting[i]));
                            let j = choose|j: int| 0 <= j < rest.len() && rest[j] == waiting[i];
                            assert(pending[if j < k {
                                j
                            } else {
                                j + 1
                            }] == waiting[i]);
                        }
                    },
                }
            },
            None => {
                assert forall|i: int| 0 <= i < pending.len() implies pending.contains(
                    #[trigger] pending[i],
                ) by {}
            },
        }
    }
}

/// The order of converters holds each model once, and an alias of a model of the same module
/// stands after a model of that name.
pub proof fn law_alias_converters_follow_their_targets(ctx: TsContext, models: Seq<JsonModel>)
    ensures
        converter_order(ctx, models) matches Ok(order) ==> {
            &&& order.to_multiset() == Seq::new(models.len(), |i: int| i).to_multiset()
            &&& forall|i: int|
                0 <= i < order.len() ==> (match models[#[trigger] order[i]].bare_reference {
                    Some(reference) => {
                        let target = crate::json_schema::ts_text::referenced_model(
                            ctx,
                            reference@,
                        );
                        model_names(models).contains(target) ==> names_at(
                            models,
                            order.take(i),
                        ).contains(target)
                    },
                    None => true,
                })
        },
{
    let pending = Seq::new(models.len(), |i: int| i);
    lemma_order_from(ctx, models, pending, Seq::empty());
    match converter_order(ctx, models) {
        Ok(order) => {
            assert forall|i: int| 0 <= i < order.len() implies (match models[
                #[trigger] order[i]
            ].bare_reference {
                Some(reference) => {
                    let target = crate::json_schema::ts_text::referenced_model(ctx, reference@);
                    model_names(models).contains(target) ==> names_at(
                        models,
                        order.take(i),
                    ).contains(target)
                },
                None => true,
            }) by {
                assert(Seq::empty() + names_at(models, order.take(i)) =~= names_at(
                    models,
                    order.take(i),
                ));
            }
        },
        Err(_) => {},
    }
}

/// Whether a model is an alias of another.
pub open spec fn is_alias_of(ctx: TsContext, models: Seq<JsonModel>, i: int, j: int) -> bool {
    match models[i].bare_reference {
        Some(reference) => crate::json_schema::ts_text::referenced_model(ctx, reference@)
            == models[j].model_name@,
        None => false,
    }
}

/// Whether the models at indices are aliases of one another in a ring.
pub open spec fn is_alias_cycle(ctx: TsContext, models: Seq<JsonModel>, cycle: Seq<int>) -> bool {
    &&& cycle.len() > 0
    &&& forall|k: int| 0 <= k < cycle.len() ==> 0 <= (#[trigger] cycle[k]) < models.len()
    &&& forall|k: int|
        0 <= k < cycle.len() - 1 ==> is_alias_of(ctx, models, #[trigger] cycle[k], cycle[k + 1])
    &&& is_alias_of(ctx, models, cycle.last(), cycle[0])
}

/// Whether a model is an alias of one of those at indices.
pub open spec fn waits_for_one(
    ctx: TsContext,
    models: Seq<JsonModel>,
    i: int,
    waiting: Seq<int>,
) -> bool {
    exists|j: int| 0 <= j < waiting.len() && #[trigger] is_alias_of(ctx, models, i, waiting[j])
}

/// Whether each model at indices is an alias of another of them.
pub open spec fn wait_for_each_other(
    ctx: TsContext,
    models: Seq<JsonModel>,
    waiting: Seq<int>,
) -> bool {
    forall|i: int|
        0 <= i < waiting.len() ==> #[trigger] waits_for_one(ctx, models, waiting[i], waiting)
}

/// The models that are left wait for each other.
proof fn lemma_waiting(
    ctx: TsContext,
    models: Seq<JsonModel>,
    pending: Seq<int>,
    declared: Seq<Seq<char>>,
)
    requires
        forall|i: int| 0 <= i < pending.len() ==> 0 <= (#[trigger] pending[i]) < models.len(),
        forall|name: Seq<char>| #[trigger]
            model_names(models).contains(name) ==> declared.contains(name) || names_at(
                models,
                pending,
            ).contains(name),
    ensures
        order_from(ctx, models, pending, declared) matches Err(waiting) ==> {
            &&& waiting.len() > 0
            &&& forall|i: int|
                0 <= i < waiting.len() ==> 0 <= (#[trigger] waiting[i]) < models.len()
            &&& wait_for_each_other(ctx, models, waiting)
        },
    decreases pending.len(),
{
    if pending.len() > 0 {
        lemma_first_ready(ctx, models, pending, declared, pending.len());
        match first_ready(ctx, models, pending, declared, pending.len()) {
            Some(k) => {
                let rest = pending.remove(k);
                let name = models[pending[k]].model_name@;
                let more = declared.push(name);
                assert forall|wanted: Seq<char>| #[trigger]
                    model_names(models).contains(wanted) implies more.contains(wanted) || names_at(
                    models,
                    rest,
                ).contains(wanted) by {
                    if declared.contains(wanted) {
                        let i = choose|i: int| 0 <= i < declared.len() && declared[i] == wanted;
                        assert(more[i] == wanted);
                    } else {
                        let names = names_at(models, pending);
                        let i = choose|i: int| 0 <= i < names.len() && names[i] == wanted;
                        if i == k {
                            assert(more.last() == wanted);
                        } else {
                            let at = if i < k {
                                i
                            } else {
                                i - 1
                            };
                            assert(rest[at] == pending[i]);
                            assert(names_at(models, rest)[at] == wanted);
                        }
                    }
                }
                lemma_waiting(ctx, models, rest, more);
            },
            None => {
                assert forall|i: int| 0 <= i < pending.len() implies #[trigger] waits_for_one(
                    ctx,
                    models,
                    pending[i],
                    pending,
                ) by {
                    assert(!converter_ready(ctx, models, models[pending[i]], declared));
                    let target = crate::json_schema::ts_text::referenced_model(
                        ctx,
                        models[pending[i]].bare_reference->Some_0@,
                    );
                    let names = names_at(models, pending);
                    assert(names.contains(target));
                    let j = choose|j: int| 0 <= j < names.len() && names[j] == target;
                    assert(is_alias_of(ctx, models, pending[i], pending[j]));
                }
            },
        }
    }
}

/// The place among waiting models that a walk from alias to alias comes to.
pub open spec fn alias_walk(
    ctx: TsContext,
    models: Seq<JsonModel>,
    waiting: Seq<int>,
    steps: nat,
) -> int
    decreases steps,
{
    if steps == 0 {
        0
    } else {
        let from = alias_walk(ctx, models, waiting, (steps - 1) as nat);
        choose|j: int|
            0 <= j < waiting.len() && #[trigger] is_alias_of(
                ctx,
                models,
                waiting[from],
                waiting[j],
            )
    }
}

proof fn lemma_alias_walk(
    ctx: TsContext,
    models: Seq<JsonModel>,
    waiting: Seq<int>,
    steps: nat,
)
    requires
        waiting.len() > 0,
        wait_for_each_other(ctx, models, waiting),
    ensures
        0 <= alias_walk(ctx, models, waiting, steps) < waiting.len(),
        is_alias_of(
            ctx,
            models,
            waiting[alias_walk(ctx, models, waiting, steps)],
            waiting[alias_walk(ctx, models, waiting, steps + 1)],
        ),
        0 <= alias_walk(ctx, models, waiting, steps + 1) < waiting.len(),
    decreases steps,
{
    if steps > 0 {
        lemma_alias_walk(ctx, models, waiting, (steps - 1) as nat);
    }
    let from = alias_walk(ctx, models, waiting, steps);
    assert(0 <= from < waiting.len());
    assert(waits_for_one(ctx, models, waiting[from], waiting));
    assert(alias_walk(ctx, models, waiting, steps + 1) == choose|j: int|
        0 <= j < waiting.len() && #[trigger] is_alias_of(
            ctx,
            models,
            waiting[from],
            waiting[j],
        ));
}

/// The order of converters cannot be found only where aliases refer to each other in a ring.
pub proof fn law_order_fails_only_on_a_cycle(ctx: TsContext, models: Seq<JsonModel>)
    ensures
        converter_order(ctx, models) is Err ==> exists|cycle: Seq<int>|
            is_alias_cycle(ctx, models, cycle),
{
    let pending = Seq::new(models.len(), |i: int| i);
    assert forall|name: Seq<char>| #[trigger]
        model_names(models).contains(name) implies Seq::<Seq<char>>::empty().contains(name)
        || names_at(models, pending).contains(name) by {
        let i = choose|i: int| 0 <= i < model_names(models).len() && model_names(models)[i] == name;
        assert(names_at(models, pending)[i] == name);
    }
    lemma_waiting(ctx, models, pending, Seq::empty());
    match converter_order(ctx, models) {
        Err(waiting) => {
            let walk = Seq::new(
                waiting.len() + 1,
                |n: int| alias_walk(ctx, models, waiting, n as nat),
            );
            assert forall|n: int| 0 <= n < walk.len() implies 0 <= #[trigger] walk[n]
                < waiting.len() by {
                lemma_alias_walk(ctx, models, waiting, n as nat);
            }
            if walk.no_duplicates() {
                walk.unique_seq_to_set();
                let places = vstd::set_lib::set_int_range(0, waiting.len() as int);
                vstd::set_lib::lemma_int_range(0, waiting.len() as int);
                assert(walk.to_set().subset_of(places));
                vstd::set_lib::lemma_len_subset(walk.to_set(), places);
                assert(false);
            }
            let (a, b) = choose|a: int, b: int|
                0 <= a < b < walk.len() && #[trigger] walk[a] == #[trigger] walk[b];
            let cycle = Seq::new((b - a) as nat, |n: int| waiting[walk[a + n]]);
            assert forall|k: int| 0 <= k < cycle.len() - 1 implies is_alias_of(
                ctx,
                models,
                #[trigger] cycle[k],
                cycle[k + 1],
            ) by {
                lemma_alias_walk(ctx, models, waiting, (a + k) as nat);
            }
            lemma_alias_walk(ctx, models, waiting, (b - 1) as nat);
            assert(is_alias_of(ctx, models, cycle.last(), cycle[0]));
            assert forall|k: int| 0 <= k < cycle.len() implies 0 <= (#[trigger] cycle[k])
                < models.len() by {
                assert(0 <= walk[a + k] < waiting.len());
            }
            assert(is_alias_cycle(ctx, models, cycle));
        },
        Ok(_) => {},
    }
}

/// The names of models, separated by commas.
pub open spec fn listed_names(models: Seq<JsonModel>, indices: Seq<int>) -> Seq<char> {
    crate::text::join(names_at(models, indices), ", "@)
}

/// The error for aliases that wait for each other.
pub open spec fn alias_cycle_error(models: Seq<JsonModel>, waiting: Seq<int>) -> ErrorView {
    ErrorView::InvalidJsonSchema {
        path: "<json-generator>"@,
        reason: "bare-`$ref` alias converter cycle among "@ + listed_names(models, waiting)
            + "; break the alias cycle by making one declaration a concrete schema"@,
    }
}

fn names_of(models: &Vec<JsonModel>, indices: &Vec<usize>) -> (names: Vec<String>)
    requires
        forall|k: int| 0 <= k < indices@.len() ==> (#[trigger] indices@[k]) < models@.len(),
    ensures
        crate::text::texts(names@) == names_at(models@, indices@.map_values(|i: usize| i as int)),
{
    broadcast use crate::text::group_texts;

    let mut names: Vec<String> = Vec::new();
    let mut k: usize = 0;
    let ghost all = indices@.map_values(|i: usize| i as int);
    while k < indices.len()
        invariant
            k <= indices.len(),
            all == indices@.map_values(|i: usize| i as int),
            forall|k: int| 0 <= k < indices@.len() ==> (#[trigger] indices@[k]) < models@.len(),
            crate::text::texts(names@) == names_at(models@, all.take(k as int)),
        decreases indices.len() - k,
    {
        let index: usize = indices[k];
        names.push(models[index].model_name.clone());
        assert(names_at(models@, all.take(k + 1)) =~= names_at(models@, all.take(k as int)).push(
            models@[all[k as int]].model_name@,
        ));
        k += 1;
    }
    assert(all.take(k as int) =~= all);
    names
}

fn is_ready(ctx: &TsContext, names: &Vec<String>, models: &Vec<JsonModel>, model: &JsonModel, declared: &Vec<
    String,
>) -> (ready: bool)
    requires
        crate::text::texts(names@) == model_names(models@),
    ensures
        ready == converter_ready(*ctx, models@, *model, crate::text::texts(declared@)),
{
    match &model.bare_reference {
        Some(reference) => {
            let target = reference_model_name(ctx, reference.as_str());
            !contains_text(names, target.as_str()) || contains_text(declared, target.as_str())
        },
        None => true,
    }
}

/// The order in which the converters of models are declared, by the indices of the models: an
/// alias after the model that it is an alias of.
pub fn converter_dependency_order(ctx: &TsContext, models: &Vec<JsonModel>) -> (result: Result<
    Vec<usize>,
    Error,
>)
    ensures
        match (result, converter_order(*ctx, models@)) {
            (Ok(order), Ok(wanted)) => order@.map_values(|i: usize| i as int) == wanted && (forall|
                k: int,
            |
                0 <= k < order@.len() ==> (#[trigger] order@[k]) < models@.len()),
            (Err(error), Err(waiting)) => error@ == alias_cycle_error(models@, waiting),
            _ => false,
        },
{
    broadcast use crate::text::group_texts;

    let mut pending: Vec<usize> = Vec::new();
    let mut names: Vec<String> = Vec::new();
    let mut i: usize = 0;
    while i < models.len()
        invariant
            i <= models.len(),
            pending@ == Seq::new(i as nat, |k: int| k as usize),
            crate::text::texts(names@) == model_names(models@.take(i as int)),
        decreases models.len() - i,
    {
        pending.push(i);
        names.push(models[i].model_name.clone());
        assert(model_names(models@.take(i + 1)) =~= model_names(models@.take(i as int)).push(
            models@[i as int].model_name@,
        ));
        i += 1;
    }
    assert(models@.take(i as int) =~= models@);
    let mut declared: Vec<String> = Vec::new();
    let mut order: Vec<usize> = Vec::new();
    let ghost start = pending@.map_values(|k: usize| k as int);
    assert(start =~= Seq::new(models@.len(), |k: int| k));
    assert(crate::text::texts(declared@) =~= Seq::empty());
    while pending.len() > 0
        invariant
            crate::text::texts(names@) == model_names(models@),
            forall|k: int| 0 <= k < pending@.len() ==> (#[trigger] pending@[k]) < models@.len(),
            forall|k: int| 0 <= k < order@.len() ==> (#[trigger] order@[k]) < models@.len(),
            match order_from(
                *ctx,
                models@,
                pending@.map_values(|k: usize| k as int),
                crate::text::texts(declared@),
            ) {
                Ok(rest) => converter_order(*ctx, models@) == Ok::<Seq<int>, Seq<int>>(
                    order@.map_values(|k: usize| k as int) + rest,
                ),
                Err(waiting) => converter_order(*ctx, models@) == Err::<Seq<int>, Seq<int>>(
                    waiting,
                ),
            },
        decreases pending.len(),
    {
        let ghost left = pending@.map_values(|k: usize| k as int);
        let mut found: Option<usize> = None;
        let mut k: usize = 0;
        while k < pending.len()
            invariant
                k <= pending.len(),
                crate::text::texts(names@) == model_names(models@),
                left == pending@.map_values(|k: usize| k as int),
                forall|k: int| 0 <= k < pending@.len() ==> (#[trigger] pending@[k]) < models@.len(),
                match found {
                    Some(at) => at < k && first_ready(
                        *ctx,
                        models@,
                        left,
                        crate::text::texts(declared@),
                        k as nat,
                    ) == Some(at as int),
                    None => first_ready(
                        *ctx,
                        models@,
                        left,
                        crate::text::texts(declared@),
                        k as nat,
                    ) is None,
                },
            decreases pending.len() - k,
        {
            let index: usize = pending[k];
            assert(left[k as int] == index as int);
            if found.is_none() && is_ready(ctx, &names, models, &models[index], &declared) {
                found = Some(k);
            }
            k += 1;
        }
        match found {
            Some(at) => {
                let ghost old_order = order@;
                let ghost old_declared = crate::text::texts(declared@);
                let index = pending.remove(at);
                assert(pending@.map_values(|k: usize| k as int) =~= left.remove(at as int));
                declared.push(models[index].model_name.clone());
                order.push(index);
                assert(crate::text::texts(declared@) =~= old_declared.push(
                    models@[index as int].model_name@,
                ));
                proof {
                    match order_from(
                        *ctx,
                        models@,
                        left.remove(at as int),
                        crate::text::texts(declared@),
                    ) {
                        Ok(rest) => {
                            assert(old_order.map_values(|k: usize| k as int) + (seq![
                                left[at as int],
                            ] + rest) =~= order@.map_values(|k: usize| k as int) + rest);
                        },
                        Err(_) => {},
                    }
                }
            },
            None => {
                let waiting = names_of(models, &pending);
                let listed = join_texts(&waiting, ", ");
                return Err(
                    Error::InvalidJsonSchema {
                        path: "<json-generator>".to_owned(),
                        reason: "bare-`$ref` alias converter cycle among ".to_owned().concat(
                            listed.as_str(),
                        ).concat(
                            "; break the alias cycle by making one declaration a concrete schema",
                        ),
                    },
                );
            },
        }
    }
    proof {
        assert(pending@.map_values(|k: usize| k as int) =~= Seq::empty());
        assert(order@.map_values(|k: usize| k as int) + Seq::<int>::empty() =~= order@.map_values(
            |k: usize| k as int,
        ));
    }
    Ok(order)
}

/// The imports of a module of models.
pub open spec fn model_imports(
    runtime_import_module: Seq<char>,
    body: Seq<char>,
    uses_payload_validation_factory: bool,
) -> Seq<char> {
    let factory = if uses_payload_validation_factory {
        "import { createPayloadValidationError } from \"@temporalio/common\";\n"@
    } else {
        Seq::<char>::empty()
    };
    let definitions = if crate::json_schema::annotation::has_part(body, "__nexgenDefinitions"@) {
        "import * as __nexgenDefinitions from \""@ + runtime_import_module + "\";\n"@
    } else {
        Seq::<char>::empty()
    };
    ("import type { TransferTypeConverter } from \"nexus-rpc\";\n"@ + factory + definitions)
}

/// The imports of a module of models.
pub fn render_json_model_imports(
    runtime_import_module: &str,
    body: &str,
    uses_payload_validation_factory: bool,
) -> (result: String)
    ensures
        result@ == model_imports(runtime_import_module@, body@, uses_payload_validation_factory),
{
    let factory = if uses_payload_validation_factory {
        "import { createPayloadValidationError } from \"@temporalio/common\";\n".to_owned()
    } else {
        String::new()
    };
    let definitions = if contains_part(body, "__nexgenDefinitions") {
        "import * as __nexgenDefinitions from \"".to_owned().concat(runtime_import_module)
            .concat("\";\n")
    } else {
        String::new()
    };
    "import type { TransferTypeConverter } from \"nexus-rpc\";\n".to_owned()
        .concat(factory.as_str()).concat(definitions.as_str())
}

/// The declarations of the types of models.
pub open spec fn model_interface_texts(
    list: Seq<JsonModel>,
    ctx: TsContext,
) -> Result<Seq<char>, ErrorView>
    decreases list.len(),
{
    if list.len() == 0 {
        Ok(Seq::empty())
    } else {
        let model = list.last();
        match model_interface_texts(list.drop_last(), ctx) {
            Err(error) => Err(error),
            Ok(before) => {
                let outcome: Result<Seq<char>, ErrorView> = match crate::json_schema::model::model_interface(ctx, model) {
                    Ok(declared) => Ok("\n"@ + declared),
                    Err(error) => Err(error),
                };
                match outcome {
                    Ok(part) => Ok(before + part),
                    Err(error) => Err(error),
                }
            },
        }
    }
}

proof fn lemma_model_interface_error(list: Seq<JsonModel>, ctx: TsContext, count: int)
    requires
        0 <= count <= list.len(),
        model_interface_texts(list.take(count), ctx) is Err,
    ensures
        model_interface_texts(list, ctx) == model_interface_texts(list.take(count), ctx),
    decreases list.len() - count,
{
    if count == list.len() {
        assert(list.take(count) =~= list);
    } else {
        assert(list.take(count + 1).drop_last() =~= list.take(count));
        lemma_model_interface_error(list, ctx, count + 1);
    }
}

/// The declarations of the types of models.
pub fn model_interfaces(
    list: &Vec<JsonModel>,
    ctx: &TsContext,
) -> (result: Result<String, Error>)
    ensures
        crate::output::text_outcome(result) == model_interface_texts(list@, *ctx),
{
    let mut text = String::new();
    let mut i: usize = 0;
    while i < list.len()
        invariant
            i <= list.len(),
            model_interface_texts(list@.take(i as int), *ctx) == Ok::<Seq<char>, ErrorView>(text@),
        decreases list.len() - i,
    {
        assert(list@.take(i + 1).drop_last() =~= list@.take(i as int));
        let model = &list[i];
        let outcome: Result<String, Error> = match render_model_interface(ctx, model) {
            Ok(declared) => Ok("\n".to_owned().concat(declared.as_str())),
            Err(error) => Err(error),
        };
        match outcome {
            Ok(part) => {
                text.append(part.as_str());
            },
            Err(error) => {
                proof {
                    lemma_model_interface_error(list@, *ctx, i + 1);
                }
                return Err(error);
            },
        }
        i += 1;
    }
    assert(list@.take(i as int) =~= list@);
    Ok(text)
}

/// The converters of the models at indices.
pub open spec fn converters_at(ctx: TsContext, models: Seq<JsonModel>, order: Seq<int>) -> Result<
    Seq<char>,
    ErrorView,
>
    decreases order.len(),
{
    if order.len() == 0 {
        Ok(Seq::empty())
    } else {
        match converters_at(ctx, models, order.drop_last()) {
            Err(error) => Err(error),
            Ok(before) => match crate::json_schema::model::model_converter(
                ctx,
                models[order.last()],
                models,
            ) {
                Ok(converter) => Ok(before + ("\n"@ + converter)),
                Err(error) => Err(error),
            },
        }
    }
}

proof fn lemma_converters_error(
    ctx: TsContext,
    models: Seq<JsonModel>,
    order: Seq<int>,
    count: int,
)
    requires
        0 <= count <= order.len(),
        converters_at(ctx, models, order.take(count)) is Err,
    ensures
        converters_at(ctx, models, order) == converters_at(ctx, models, order.take(count)),
    decreases order.len() - count,
{
    if count == order.len() {
        assert(order.take(count) =~= order);
    } else {
        assert(order.take(count + 1).drop_last() =~= order.take(count));
        lemma_converters_error(ctx, models, order, count + 1);
    }
}

fn render_converters(
    ctx: &TsContext,
    models: &Vec<JsonModel>,
    order: &Vec<usize>,
) -> (result: Result<
    String,
    Error,
>)
    requires
        forall|k: int| 0 <= k < order@.len() ==> (#[trigger] order@[k]) < models@.len(),
    ensures
        crate::output::text_outcome(result) == converters_at(
            *ctx,
            models@,
            order@.map_values(|i: usize| i as int),
        ),
{
    let ghost all = order@.map_values(|i: usize| i as int);
    let mut text = String::new();
    let mut k: usize = 0;
    while k < order.len()
        invariant
            k <= order.len(),
            all == order@.map_values(|i: usize| i as int),
            forall|k: int| 0 <= k < order@.len() ==> (#[trigger] order@[k]) < models@.len(),
            converters_at(*ctx, models@, all.take(k as int)) == Ok::<Seq<char>, ErrorView>(text@),
        decreases order.len() - k,
    {
        assert(all.take(k + 1).drop_last() =~= all.take(k as int));
        let index: usize = order[k];
        assert(all.take(k + 1).last() == index as int);
        match render_model_transfer_type_converter(ctx, &models[index], models) {
            Ok(converter) => {
                let part = "\n".to_owned().concat(converter.as_str());
                text.append(part.as_str());
            },
            Err(error) => {
                proof {
                    lemma_converters_error(*ctx, models@, all, k + 1);
                }
                return Err(error);
            },
        }
        k += 1;
    }
    assert(all.take(k as int) =~= all);
    Ok(text)
}

/// The converters of models, in the order in which they can be declared.
pub open spec fn ordered_converters(ctx: TsContext, models: Seq<JsonModel>) -> Result<
    Seq<char>,
    ErrorView,
> {
    match converter_order(ctx, models) {
        Ok(order) => converters_at(ctx, models, order),
        Err(waiting) => Err(alias_cycle_error(models, waiting)),
    }
}

fn render_ordered_converters(ctx: &TsContext, models: &Vec<JsonModel>) -> (result: Result<
    String,
    Error,
>)
    ensures
        crate::output::text_outcome(result) == ordered_converters(*ctx, models@),
{
    match converter_dependency_order(ctx, models) {
        Ok(order) => render_converters(ctx, models, &order),
        Err(error) => Err(error),
    }
}

/// The body of a module of models.
pub open spec fn module_body_text(
    ctx: TsContext,
    models: Seq<JsonModel>,
) -> Result<Seq<char>, ErrorView> {
    match crate::json_schema::model::module_constants(models) {
        Err(error) => Err(error),
        Ok(constants) => match pattern_constants(ctx, models) {
            Err(error) => Err(error),
            Ok(regexes) => {
                let head = constants + regexes;
                let gap = if head.len() == 0 {
                    Seq::<char>::empty()
                } else {
                    "\n"@
                };
                match model_interface_texts(models, ctx) {
                    Err(error) => Err(error),
                    Ok(interfaces) => match crate::json_schema::model::inline_serializers(ctx, models) {
                        Err(error) => Err(error),
                        Ok(serializers) => match ordered_converters(ctx, models) {
                            Err(error) => Err(error),
                            Ok(converters) => Ok(
                                head + gap + interfaces + serializers + converters,
                            ),
                        },
                    },
                }
            },
        },
    }
}

/// The body of a module of models.
pub fn module_body(ctx: &TsContext, models: &Vec<JsonModel>) -> (result: Result<String, Error>)
    ensures
        crate::output::text_outcome(result) == module_body_text(*ctx, models@),
{
    match render_default_constants(models) {
        Err(error) => Err(error),
        Ok(constants) => match render_pattern_regexes(ctx, models) {
            Err(error) => Err(error),
            Ok(regexes) => {
                let head = constants.clone().concat(regexes.as_str());
                let gap = if head.as_str().is_empty() {
                    String::new()
                } else {
                    "\n".to_owned()
                };
                match model_interfaces(models, ctx) {
                    Err(error) => Err(error),
                    Ok(interfaces) => match render_ts_inline_union_serializers(ctx, models) {
                        Err(error) => Err(error),
                        Ok(serializers) => match render_ordered_converters(ctx, models) {
                            Err(error) => Err(error),
                            Ok(converters) => Ok(
                                head.clone().concat(gap.as_str()).concat(interfaces.as_str())
                                    .concat(serializers.as_str()).concat(converters.as_str()),
                            ),
                        },
                    },
                }
            },
        },
    }
}

/// A module of models: its imports, its body, and the names that it exports.
#[derive(Debug)]
pub struct RenderedExternalModelFragments {
    pub imports: String,
    pub body: String,
    pub type_exported_names: Vec<String>,
    pub value_exported_names: Vec<String>,
}

/// A [`RenderedExternalModelFragments`] by its texts.
#[verifier::ext_equal]
pub struct FragmentsView {
    pub imports: Seq<char>,
    pub body: Seq<char>,
    pub type_exported_names: Seq<Seq<char>>,
    pub value_exported_names: Seq<Seq<char>>,
}

impl View for RenderedExternalModelFragments {
    type V = FragmentsView;

    open spec fn view(&self) -> FragmentsView {
        FragmentsView {
            imports: self.imports@,
            body: self.body@,
            type_exported_names: crate::text::texts(self.type_exported_names@),
            value_exported_names: crate::text::texts(self.value_exported_names@),
        }
    }
}

/// The names of the types of models.
pub open spec fn exported_type_names(models: Seq<JsonModel>) -> Seq<Seq<char>>
    decreases models.len(),
{
    if models.len() == 0 {
        Seq::empty()
    } else {
        let model = models.last();
        exported_type_names(models.drop_last()) + (
            seq![model.model_name@]
        )
    }
}

/// The names of the types of models.
pub fn exported_types(models: &Vec<JsonModel>) -> (result: Vec<String>)
    ensures
        crate::text::texts(result@) == exported_type_names(models@),
{
    broadcast use crate::text::group_texts;

    let mut result: Vec<String> = Vec::new();
    let mut i: usize = 0;
    while i < models.len()
        invariant
            i <= models.len(),
            crate::text::texts(result@) == exported_type_names(models@.take(i as int)),
        decreases models.len() - i,
    {
        proof {
            assert(models@.take(i + 1).drop_last() =~= models@.take(i as int));
            assert(models@.take(i + 1).last() == models@[i as int]);
        }
        let model = &models[i];
        let part = vec![model.model_name.clone()];
        result = with_lines(result, part);
        i += 1;
    }
    proof {
        crate::text::lemma_take_all(models@);
    }
    result
}

/// The names of the converters of models.
pub open spec fn exported_converter_names(models: Seq<JsonModel>) -> Seq<Seq<char>>
    decreases models.len(),
{
    if models.len() == 0 {
        Seq::empty()
    } else {
        let model = models.last();
        exported_converter_names(models.drop_last()) + (
            seq![crate::json_schema::ts_text::converter_name(model.model_name@)]
        )
    }
}

/// The names of the converters of models.
pub fn exported_converters(models: &Vec<JsonModel>) -> (result: Vec<String>)
    ensures
        crate::text::texts(result@) == exported_converter_names(models@),
{
    broadcast use crate::text::group_texts;

    let mut result: Vec<String> = Vec::new();
    let mut i: usize = 0;
    while i < models.len()
        invariant
            i <= models.len(),
            crate::text::texts(result@) == exported_converter_names(models@.take(i as int)),
        decreases models.len() - i,
    {
        proof {
            assert(models@.take(i + 1).drop_last() =~= models@.take(i as int));
            assert(models@.take(i + 1).last() == models@[i as int]);
        }
        let model = &models[i];
        let part = vec![ts_transfer_type_converter_name(model.model_name.as_str())];
        result = with_lines(result, part);
        i += 1;
    }
    proof {
        crate::text::lemma_take_all(models@);
    }
    result
}

/// Whether one of the models is no alias.
pub open spec fn some_concrete(models: Seq<JsonModel>) -> bool {
    exists|i: int| 0 <= i < models.len() && (#[trigger] models[i]).bare_reference is None
}

fn any_concrete(models: &Vec<JsonModel>) -> (found: bool)
    ensures
        found == some_concrete(models@),
{
    let mut i: usize = 0;
    while i < models.len()
        invariant
            i <= models.len(),
            forall|k: int| 0 <= k < i ==> (#[trigger] models@[k]).bare_reference is Some,
        decreases models.len() - i,
    {
        if models[i].bare_reference.is_none() {
            return true;
        }
        i += 1;
    }
    false
}

/// The module of models; an empty one where there are none.
pub open spec fn external_models(
    ctx: TsContext,
    models: Seq<JsonModel>,
    runtime_import_module: Seq<char>,
) -> Result<FragmentsView, ErrorView> {
    if models.len() == 0 {
        Ok(
            FragmentsView {
                imports: Seq::empty(),
                body: Seq::empty(),
                type_exported_names: Seq::empty(),
                value_exported_names: Seq::empty(),
            },
        )
    } else {
        match module_body_text(ctx, models) {
            Ok(body) => Ok(
                FragmentsView {
                    imports: model_imports(runtime_import_module, body, some_concrete(models)),
                    body,
                    type_exported_names: exported_type_names(models),
                    value_exported_names: exported_converter_names(models),
                },
            ),
            Err(error) => Err(error),
        }
    }
}

/// The module of models; an empty one where there are none.
pub fn render_external_models(
    ctx: &TsContext,
    models: &Vec<JsonModel>,
    runtime_import_module: &str,
) -> (result: Result<RenderedExternalModelFragments, Error>)
    ensures
        match (result, external_models(*ctx, models@, runtime_import_module@)) {
            (Ok(found), Ok(wanted)) => found@ == wanted,
            (Err(error), Err(wanted)) => error@ == wanted,
            _ => false,
        },
{
    broadcast use crate::text::group_texts;

    if models.len() == 0 {
        let fragments = RenderedExternalModelFragments {
            imports: String::new(),
            body: String::new(),
            type_exported_names: Vec::new(),
            value_exported_names: Vec::new(),
        };
        assert(fragments@.type_exported_names =~= Seq::empty());
        assert(fragments@.value_exported_names =~= Seq::empty());
        return Ok(fragments);
    }
    match module_body(ctx, models) {
        Ok(body) => {
            let imports = render_json_model_imports(
                runtime_import_module,
                body.as_str(),
                any_concrete(models),
            );
            Ok(
                RenderedExternalModelFragments {
                    imports,
                    body,
                    type_exported_names: exported_types(models),
                    value_exported_names: exported_converters(models),
                },
            )
        },
        Err(error) => Err(error),
    }
}

/// The steps from a module up to the root of its tree.
pub open spec fn steps_up_text(depth: usize) -> Seq<char>
    decreases depth,
{
    if depth == 0 {
        Seq::<char>::empty()
    } else {
        let rest = steps_up_text((depth - 1) as usize);
        (rest + "../"@)
    }
}

/// The steps from a module up to the root of its tree.
pub fn steps_up(depth: usize) -> (result: String)
    ensures
        result@ == steps_up_text(depth),
    decreases depth,
{
    if depth == 0 {
        String::new()
    } else {
        let rest = steps_up(depth - 1);
        rest.clone().concat("../")
    }
}

/// The import of the runtime module from a module of a tree.
pub open spec fn runtime_import(depth: usize) -> Seq<char> {
    steps_up_text(depth) + "definitions"@
}

/// The import of the runtime module from a module of a tree.
pub fn root_typescript_runtime_module(depth: usize) -> (result: String)
    ensures
        result@ == runtime_import(depth),
{
    steps_up(depth).concat("definitions")
}

/// The models of a module before their identifiers are settled: how deep the module stands in its
/// tree, its models, the identifiers of the types by full name, and those of the types of other
/// modules by reference.
#[derive(Debug)]
pub struct PlannedJsonModels {
    pub module_depth: usize,
    pub models: Vec<JsonModel>,
    pub manifest: Vec<RefName>,
    pub cross_module_names: Vec<RefName>,
    pub tree_models: Vec<JsonModel>,
    pub formats: Vec<FormatCheck>,
    pub repr: TsDateTimeTypes,
}

/// Renders the models of one module.
#[derive(Debug)]
pub struct ModelBackend {
    pub json_models: Vec<JsonModel>,
    pub tree_leaf: bool,
    pub runtime_import_module: String,
    pub manifest: Vec<RefName>,
    pub ctx: TsContext,
}

/// The identifier of a model's type: that of the manifest, else the planned one.
pub open spec fn resolved_name_text(
    manifest: Seq<RefName>,
    full_name: Seq<char>,
    model_name: Seq<char>,
) -> Seq<char> {
    match crate::json_schema::ts_text::registered_name(manifest, full_name) {
        Some(name) => name,
        None => model_name,
    }
}

/// The identifier of a model's type: that of the manifest, else the planned one.
pub fn resolved_name(
    manifest: &Vec<RefName>,
    full_name: &str,
    model_name: &str,
) -> (result: String)
    ensures
        result@ == resolved_name_text(manifest@, full_name@, model_name@),
{
    match find_registered_name(manifest, full_name) {
        Some(name) => name,
        None => model_name.to_owned(),
    }
}

/// A reference name by its texts.
pub open spec fn ref_name_view(name: RefName) -> (Seq<char>, Seq<char>) {
    (name.reference@, name.name@)
}

/// The names under which the models of a module are referred to.
pub open spec fn own_ref_names(models: Seq<JsonModel>) -> Seq<(Seq<char>, Seq<char>)>
    decreases models.len(),
{
    if models.len() == 0 {
        Seq::empty()
    } else {
        let model = models.last();
        own_ref_names(models.drop_last()).push((model.full_name@, model.model_name@)).push(
            ("#/$defs/"@ + model.full_name@, model.model_name@),
        )
    }
}

/// Reference names by their texts.
pub open spec fn ref_name_views(names: Seq<RefName>) -> Seq<(Seq<char>, Seq<char>)> {
    names.map_values(|name: RefName| ref_name_view(name))
}

/// The models with the identifiers of the manifest.
fn settle_names(manifest: &Vec<RefName>, models: Vec<JsonModel>) -> (settled: Vec<JsonModel>)
    ensures
        settled@.len() == models@.len(),
        forall|i: int|
            0 <= i < models@.len() ==> {
                let model = #[trigger] settled@[i];
                &&& model.full_name@ == models@[i].full_name@
                &&& model.bare_reference == models@[i].bare_reference
                &&& model.schema == models@[i].schema
                &&& model.model_name@ == resolved_name_text(
                    manifest@,
                    models@[i].full_name@,
                    models@[i].model_name@,
                )
            },
{
    let ghost given = models@;
    let mut left = models;
    let mut reversed: Vec<JsonModel> = Vec::new();
    while left.len() > 0
        invariant
            left@.len() + reversed@.len() == given.len(),
            left@ == given.take(left@.len() as int),
            forall|i: int|
                0 <= i < reversed@.len() ==> {
                    let model = #[trigger] reversed@[i];
                    let from = given[given.len() - 1 - i];
                    &&& model.full_name@ == from.full_name@
                    &&& model.bare_reference == from.bare_reference
                    &&& model.schema == from.schema
                    &&& model.model_name@ == resolved_name_text(
                        manifest@,
                        from.full_name@,
                        from.model_name@,
                    )
                },
        decreases left.len(),
    {
        let ghost before = left@;
        match left.pop() {
            Some(model) => {
                assert(model == given[before.len() - 1]);
                let name = resolved_name(
                    manifest,
                    model.full_name.as_str(),
                    model.model_name.as_str(),
                );
                reversed.push(
                    JsonModel {
                        model_name: name,
                        full_name: model.full_name,
                        bare_reference: model.bare_reference,
                        schema: model.schema,
                    },
                );
                assert(left@ =~= given.take(left@.len() as int));
            },
            None => {},
        }
    }
    let mut settled: Vec<JsonModel> = Vec::new();
    let ghost all = reversed@;
    while reversed.len() > 0
        invariant
            all.len() == given.len(),
            reversed@.len() + settled@.len() == all.len(),
            reversed@ == all.take(reversed@.len() as int),
            forall|i: int|
                0 <= i < settled@.len() ==> #[trigger] settled@[i] == all[all.len() - 1 - i],
        decreases reversed.len(),
    {
        let ghost before = reversed@;
        match reversed.pop() {
            Some(model) => {
                assert(model == all[before.len() - 1]);
                settled.push(model);
                assert(reversed@ =~= all.take(reversed@.len() as int));
            },
            None => {},
        }
    }
    settled
}

fn register_own_names(names: Vec<RefName>, models: &Vec<JsonModel>) -> (result: Vec<RefName>)
    ensures
        ref_name_views(result@) == ref_name_views(names@) + own_ref_names(models@),
{
    let ghost start = ref_name_views(names@);
    let mut result = names;
    let mut i: usize = 0;
    assert(start + own_ref_names(models@.take(0)) =~= start);
    while i < models.len()
        invariant
            i <= models.len(),
            ref_name_views(result@) == start + own_ref_names(models@.take(i as int)),
        decreases models.len() - i,
    {
        assert(models@.take(i + 1).drop_last() =~= models@.take(i as int));
        let ghost before = ref_name_views(result@);
        result.push(
            RefName {
                reference: models[i].full_name.clone(),
                name: models[i].model_name.clone(),
            },
        );
        result.push(
            RefName {
                reference: "#/$defs/".to_owned().concat(models[i].full_name.as_str()),
                name: models[i].model_name.clone(),
            },
        );
        assert(ref_name_views(result@) =~= before.push(
            (models@[i as int].full_name@, models@[i as int].model_name@),
        ).push(("#/$defs/"@ + models@[i as int].full_name@, models@[i as int].model_name@)));
        i += 1;
    }
    assert(models@.take(i as int) =~= models@);
    result
}

/// The support of a module of models: its files by their paths, and what the root of the output
/// exports of them.
#[derive(Debug)]
pub struct RenderedTypeScriptSupport {
    pub files: Vec<(String, String)>,
    pub root_exports: Vec<String>,
}

/// A [`RenderedTypeScriptSupport`] by its texts.
#[verifier::ext_equal]
pub struct SupportView {
    pub files: Seq<(Seq<char>, Seq<char>)>,
    pub root_exports: Seq<Seq<char>>,
}

impl View for RenderedTypeScriptSupport {
    type V = SupportView;

    open spec fn view(&self) -> SupportView {
        SupportView {
            files: self.files@.map_values(|file: (String, String)| (file.0@, file.1@)),
            root_exports: crate::text::texts(self.root_exports@),
        }
    }
}

/// The support with the runtime module, or none.
pub open spec fn support_of(runtime: Option<Seq<char>>) -> SupportView {
    match runtime {
        Some(runtime) => SupportView {
            files: seq![("definitions.ts"@, runtime)],
            root_exports: seq!["export type { Violation } from './definitions';"@],
        },
        None => SupportView { files: Seq::empty(), root_exports: Seq::empty() },
    }
}

/// The support with the runtime module, or none.
pub fn rendered_support(runtime: Option<String>) -> (support: RenderedTypeScriptSupport)
    ensures
        support@ == support_of(crate::text::opt_text(runtime)),
{
    broadcast use crate::text::group_texts;

    match runtime {
        Some(runtime) => {
            let ghost text = runtime@;
            let mut files: Vec<(String, String)> = Vec::new();
            files.push(("definitions.ts".to_owned(), runtime));
            let mut root_exports: Vec<String> = Vec::new();
            root_exports.push("export type { Violation } from './definitions';".to_owned());
            let support = RenderedTypeScriptSupport { files, root_exports };
            assert(support@.files =~= seq![("definitions.ts"@, text)]);
            assert(support@.root_exports =~= seq![
                "export type { Violation } from './definitions';"@,
            ]);
            support
        },
        None => {
            let support = RenderedTypeScriptSupport { files: Vec::new(), root_exports: Vec::new() };
            assert(support@.files =~= Seq::empty());
            assert(support@.root_exports =~= Seq::empty());
            support
        },
    }
}

/// Whether one of the first children of a branch has JSON models.
pub open spec fn some_child_has_models(node: ApiSpecNode<bool>, count: nat) -> bool
    decreases node, 0nat, count,
        when node matches ApiSpecNode::Branch(children) && count <= children@.len()
{
    if count == 0 {
        false
    } else {
        some_child_has_models(node, (count - 1) as nat) || has_json_models(
            node->Branch_0@[count - 1],
        )
    }
}

/// Whether a tree has JSON models; its leaves say so of themselves.
pub open spec fn has_json_models(node: ApiSpecNode<bool>) -> bool
    decreases node, 1nat, 0nat,
{
    match node {
        ApiSpecNode::Leaf(found) => found,
        ApiSpecNode::Branch(children) => some_child_has_models(node, children@.len()),
    }
}

/// Whether a tree has JSON models; its leaves say so of themselves.
pub fn branch_has_json_models(node: &ApiSpecNode<bool>) -> (found: bool)
    ensures
        found == has_json_models(*node),
    decreases node,
{
    match node {
        ApiSpecNode::Leaf(found) => *found,
        ApiSpecNode::Branch(children) => {
            let mut any = false;
            let mut i: usize = 0;
            while i < children.len()
                invariant
                    i <= children.len(),
                    *node == ApiSpecNode::Branch(*children),
                    any == some_child_has_models(*node, i as nat),
                decreases children.len() - i,
            {
                if branch_has_json_models(&children[i]) {
                    any = true;
                }
                i += 1;
            }
            any
        },
    }
}

/// The support of a tree of modules: the runtime module, where a leaf has JSON models.
pub fn render_tree_support(
    tree: &ApiSpecNode<bool>,
    header: &str,
    patterns: &RuntimePatterns,
    repr: TsDateTimeTypes,
    uses: RuntimeUses,
) -> (support: RenderedTypeScriptSupport)
    ensures
        support@ == support_of(
            if has_json_models(*tree) {
                Some(
                    crate::json_schema::runtime::runtime_module(header@, *patterns, repr, uses),
                )
            } else {
                None
            },
        ),
{
    if branch_has_json_models(tree) {
        rendered_support(Some(render_json_runtime_module(header, patterns, repr, uses)))
    } else {
        rendered_support(None)
    }
}

impl ModelBackend {
    /// Settles the identifiers of a module's models, and under which names they are referred to.
    pub fn prepare(planned: PlannedJsonModels) -> (backend: ModelBackend)
        ensures
            backend.tree_leaf == (planned.module_depth > 0),
            backend.runtime_import_module@ == (if planned.module_depth > 0 {
                runtime_import(planned.module_depth)
            } else {
                "./definitions"@
            }),
            backend.manifest == planned.manifest,
            backend.json_models@.len() == planned.models@.len(),
            forall|i: int|
                0 <= i < planned.models@.len() ==> {
                    let model = #[trigger] backend.json_models@[i];
                    &&& model.full_name@ == planned.models@[i].full_name@
                    &&& model.bare_reference == planned.models@[i].bare_reference
                    &&& model.schema == planned.models@[i].schema
                    &&& model.model_name@ == resolved_name_text(
                        planned.manifest@,
                        planned.models@[i].full_name@,
                        planned.models@[i].model_name@,
                    )
                },
            backend.ctx.repr == planned.repr,
            backend.ctx.formats == planned.formats,
            backend.ctx.tree_models == planned.tree_models,
            ref_name_views(backend.ctx.ref_names@) == ref_name_views(planned.cross_module_names@)
                + own_ref_names(backend.json_models@),
    {
        let runtime_import_module = if planned.module_depth > 0 {
            root_typescript_runtime_module(planned.module_depth)
        } else {
            "./definitions".to_owned()
        };
        let json_models = settle_names(&planned.manifest, planned.models);
        let ref_names = register_own_names(planned.cross_module_names, &json_models);
        ModelBackend {
            json_models,
            tree_leaf: planned.module_depth > 0,
            runtime_import_module,
            manifest: planned.manifest,
            ctx: TsContext {
                repr: planned.repr,
                formats: planned.formats,
                ref_names,
                tree_models: planned.tree_models,
            },
        }
    }

    /// The identifier of a model's type.
    pub fn resolved_model_name(&self, json_type: &JsonModel) -> (name: String)
        ensures
            name@ == resolved_name_text(
                self.manifest@,
                json_type.full_name@,
                json_type.model_name@,
            ),
    {
        resolved_name(&self.manifest, json_type.full_name.as_str(), json_type.model_name.as_str())
    }

    /// The identifier of a model's converter.
    pub fn transfer_type_converter(&self, json_type: &JsonModel) -> (name: String)
        ensures
            name@ == crate::json_schema::ts_text::converter_name(
                resolved_name_text(self.manifest@, json_type.full_name@, json_type.model_name@),
            ),
    {
        let name = self.resolved_model_name(json_type);
        ts_transfer_type_converter_name(name.as_str())
    }

    /// The module of the models.
    pub fn render_models(&self) -> (result: Result<RenderedExternalModelFragments, Error>)
        ensures
            match (
                result,
                external_models(self.ctx, self.json_models@, self.runtime_import_module@),
            ) {
                (Ok(found), Ok(wanted)) => found@ == wanted,
                (Err(error), Err(wanted)) => error@ == wanted,
                _ => false,
            },
    {
        render_external_models(&self.ctx, &self.json_models, self.runtime_import_module.as_str())
    }

    /// The runtime module, where this module writes it: a module of a tree, and one without
    /// models, do not.
    pub fn render_support(&self, header: &str, patterns: &RuntimePatterns) -> (support:
        RenderedTypeScriptSupport)
        ensures
            support@ == support_of(
                if self.tree_leaf || self.json_models@.len() == 0 {
                    None
                } else {
                    Some(
                        crate::json_schema::runtime::runtime_module(
                            header@,
                            *patterns,
                            self.ctx.repr,
                            runtime_uses(self.ctx, self.json_models@),
                        ),
                    )
                },
            ),
    {
        if self.tree_leaf || self.json_models.len() == 0 {
            rendered_support(None)
        } else {
            let uses = find_runtime_uses(&self.ctx, &self.json_models);
            rendered_support(
                Some(render_json_runtime_module(header, patterns, self.ctx.repr, uses)),
            )
        }
    }

    /// The identifier of a model on the wire.
    pub fn wire_type_identifier(&self, json_type: &JsonModel) -> (name: String)
        ensures
            name@ == json_type.full_name@,
    {
        json_type.full_name.clone()
    }

    /// The conversion of a model's values: none, for its converter does it.
    pub fn wire_conversion(&self, json_type: &JsonModel) -> (conversion: Option<
        WireValueConversion,
    >)
        ensures
            crate::proto::typescript::opt_conversion(conversion) == Some(
                crate::proto::typescript::ConversionView {
                    annotation: resolved_name_text(
                        self.manifest@,
                        json_type.full_name@,
                        json_type.model_name@,
                    ),
                    from_wire: "{wire}"@,
                    to_wire: "{value}"@,
                    function_name_to_wire: None,
                    wire_function_names: None,
                    uses_rendered_model_annotation: false,
                },
            ),
    {
        Some(
            WireValueConversion {
                annotation: self.resolved_model_name(json_type),
                from_wire: "{wire}".to_owned(),
                to_wire: "{value}".to_owned(),
                function_name_to_wire: None,
                wire_function_names: None,
                uses_rendered_model_annotation: false,
            },
        )
    }
}

} // verus!
