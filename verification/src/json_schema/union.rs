//! Sum types: the branches of a schema as the members of a TypeScript union.

use vstd::prelude::*;

use crate::json_schema::annotation::{annotation_or, is_ts_union, ts_map_shape};
use crate::json_schema::schema::{type_is, Property, Schema};
use crate::json_schema::ts_text::{
    reference_full_name, reference_model_name, ts_transfer_type_converter_name, JsonModel,
    ReadSchema, TsContext,
};
use crate::json_schema::value::{values_same, JsonValue};
use crate::paths::{place_texts, Placement};
use crate::text::{contains_text, join_texts, text_eq, with_lines};

verus! {

/// A member of a union. `followed` says that its schema is that of a model that the branch refers
/// to.
#[derive(Debug)]
pub struct TsUnionVariant<'a> {
    pub ts_type: String,
    pub is_object: bool,
    pub converter: Option<String>,
    pub discriminant_value: Option<&'a JsonValue>,
    pub typeof_guard: Option<String>,
    pub is_integer: bool,
    pub is_array: bool,
    pub label: String,
    pub schema: &'a Schema,
    pub followed: bool,
}

/// A [`TsUnionVariant`] by its contents.
#[verifier::ext_equal]
pub struct VariantView {
    pub ts_type: Seq<char>,
    pub is_object: bool,
    pub converter: Option<Seq<char>>,
    pub discriminant_value: Option<JsonValue>,
    pub typeof_guard: Option<Seq<char>>,
    pub is_integer: bool,
    pub is_array: bool,
    pub label: Seq<char>,
    pub schema: Schema,
    pub followed: bool,
}

/// The value that an optional reference points to.
pub open spec fn pointed(value: Option<&JsonValue>) -> Option<JsonValue> {
    match value {
        Some(value) => Some(*value),
        None => None,
    }
}

impl<'a> View for TsUnionVariant<'a> {
    type V = VariantView;

    open spec fn view(&self) -> VariantView {
        VariantView {
            ts_type: self.ts_type@,
            is_object: self.is_object,
            converter: crate::text::opt_text(self.converter),
            discriminant_value: pointed(self.discriminant_value),
            typeof_guard: crate::text::opt_text(self.typeof_guard),
            is_integer: self.is_integer,
            is_array: self.is_array,
            label: self.label@,
            schema: *self.schema,
            followed: self.followed,
        }
    }
}

/// A union: whether `null` is among its values, the member by which its objects are told apart,
/// and its members.
#[derive(Debug)]
pub struct TsUnion<'a> {
    pub nullable: bool,
    pub discriminant: Option<String>,
    pub variants: Vec<TsUnionVariant<'a>>,
}

/// A [`TsUnion`] by its contents.
#[verifier::ext_equal]
pub struct UnionView {
    pub nullable: bool,
    pub discriminant: Option<Seq<char>>,
    pub variants: Seq<VariantView>,
}

/// The contents of variants.
pub open spec fn variant_views(variants: Seq<TsUnionVariant>) -> Seq<VariantView> {
    variants.map_values(|variant: TsUnionVariant| variant@)
}

impl<'a> View for TsUnion<'a> {
    type V = UnionView;

    open spec fn view(&self) -> UnionView {
        UnionView {
            nullable: self.nullable,
            discriminant: crate::text::opt_text(self.discriminant),
            variants: variant_views(self.variants@),
        }
    }
}

/// The labels of a union's members.
pub open spec fn labels_of(variants: Seq<VariantView>) -> Seq<Seq<char>>
    decreases variants.len(),
{
    if variants.len() == 0 {
        Seq::empty()
    } else {
        let variant = variants.last();
        labels_of(variants.drop_last()) + (
            seq![variant.label]
        )
    }
}

/// The labels of a union's members.
pub fn variant_labels(variants: &Vec<TsUnionVariant>) -> (result: Vec<String>)
    ensures
        crate::text::texts(result@) == labels_of(variant_views(variants@)),
{
    broadcast use crate::text::group_texts;

    let mut result: Vec<String> = Vec::new();
    let mut i: usize = 0;
    while i < variants.len()
        invariant
            i <= variants.len(),
            crate::text::texts(result@) == labels_of(variant_views(variants@).take(i as int)),
        decreases variants.len() - i,
    {
        proof {
            assert(
                variant_views(variants@).take(i + 1).drop_last()
                    =~= variant_views(variants@).take(i as int)
            );
            assert(
                variant_views(variants@).take(i + 1).last() == variant_views(variants@)[i as int]
            );
        }
        let variant = &variants[i];
        let part = vec![variant.label.as_str().to_owned()];
        result = with_lines(result, part);
        i += 1;
    }
    proof {
        crate::text::lemma_take_all(variant_views(variants@));
    }
    result
}

/// The members of a union, for a message.
pub open spec fn admissible_text(union: UnionView) -> Seq<char> {
    let labels = labels_of(union.variants);
    crate::text::join(labels, ", "@)
}

/// The members of a union, for a message.
pub fn admissible(union: &TsUnion) -> (result: String)
    ensures
        result@ == admissible_text(union@),
{
    let labels = variant_labels(&union.variants);
    join_texts(&labels, ", ")
}

/// The schema of the first model with a name.
pub open spec fn schema_named(models: Seq<JsonModel>, name: Seq<char>) -> Option<ReadSchema>
    decreases models.len(),
{
    if models.len() == 0 {
        None
    } else if models[0].model_name@ == name || models[0].full_name@ == name {
        Some(models[0].schema)
    } else {
        schema_named(models.drop_first(), name)
    }
}

/// The schema of the first model with a full name.
pub open spec fn schema_full_named(models: Seq<JsonModel>, name: Seq<char>) -> Option<ReadSchema>
    decreases models.len(),
{
    if models.len() == 0 {
        None
    } else if models[0].full_name@ == name {
        Some(models[0].schema)
    } else {
        schema_full_named(models.drop_first(), name)
    }
}

/// The schema that was read, where it was.
pub open spec fn readable(schema: ReadSchema) -> Option<Schema> {
    match schema {
        ReadSchema::Read(schema) => Some(schema),
        ReadSchema::Unreadable(_) => None,
    }
}

/// The schema that a reference names: that of a model of the module, else that of a model of the
/// whole input, by its full name first.
pub open spec fn found_schema(
    ctx: TsContext,
    models: Seq<JsonModel>,
    reference: Seq<char>,
) -> Option<
    Schema,
> {
    let target = crate::json_schema::ts_text::referenced_model(ctx, reference);
    match schema_named(models, target) {
        Some(schema) => readable(schema),
        None => match schema_full_named(
            ctx.tree_models@,
            crate::json_schema::ts_text::full_name_of(reference),
        ) {
            Some(schema) => readable(schema),
            None => match schema_named(ctx.tree_models@, target) {
                Some(schema) => readable(schema),
                None => None,
            },
        },
    }
}

fn find_named<'a>(models: &'a Vec<JsonModel>, name: &str) -> (schema: Option<&'a ReadSchema>)
    ensures
        match (schema, schema_named(models@, name@)) {
            (Some(found), Some(wanted)) => *found == wanted,
            (None, None) => true,
            _ => false,
        },
{
    let mut i: usize = 0;
    assert(models@.skip(0) =~= models@);
    while i < models.len()
        invariant
            i <= models.len(),
            schema_named(models@, name@) == schema_named(models@.skip(i as int), name@),
        decreases models.len() - i,
    {
        assert(models@.skip(i as int).drop_first() =~= models@.skip(i + 1));
        if text_eq(models[i].model_name.as_str(), name) || text_eq(
            models[i].full_name.as_str(),
            name,
        ) {
            return Some(&models[i].schema);
        }
        i += 1;
    }
    None
}

fn find_full_named<'a>(models: &'a Vec<JsonModel>, name: &str) -> (schema: Option<&'a ReadSchema>)
    ensures
        match (schema, schema_full_named(models@, name@)) {
            (Some(found), Some(wanted)) => *found == wanted,
            (None, None) => true,
            _ => false,
        },
{
    let mut i: usize = 0;
    assert(models@.skip(0) =~= models@);
    while i < models.len()
        invariant
            i <= models.len(),
            schema_full_named(models@, name@) == schema_full_named(models@.skip(i as int), name@),
        decreases models.len() - i,
    {
        assert(models@.skip(i as int).drop_first() =~= models@.skip(i + 1));
        if text_eq(models[i].full_name.as_str(), name) {
            return Some(&models[i].schema);
        }
        i += 1;
    }
    None
}

fn read_schema(schema: &ReadSchema) -> (result: Option<&Schema>)
    ensures
        match (result, readable(*schema)) {
            (Some(found), Some(wanted)) => *found == wanted,
            (None, None) => true,
            _ => false,
        },
{
    match schema {
        ReadSchema::Read(schema) => Some(schema),
        ReadSchema::Unreadable(_) => None,
    }
}

/// The schema that a reference names: that of a model of the module, else that of a model of the
/// whole input, by its full name first.
pub fn find_ref_schema<'a>(
    ctx: &'a TsContext,
    reference: &str,
    models: &'a Vec<JsonModel>,
) -> (schema: Option<&'a Schema>)
    ensures
        match (schema, found_schema(*ctx, models@, reference@)) {
            (Some(found), Some(wanted)) => *found == wanted,
            (None, None) => true,
            _ => false,
        },
{
    let target = reference_model_name(ctx, reference);
    match find_named(models, target.as_str()) {
        Some(schema) => {
            return read_schema(schema);
        },
        None => {},
    }
    let full_name = reference_full_name(reference);
    match find_full_named(&ctx.tree_models, full_name.as_str()) {
        Some(schema) => read_schema(schema),
        None => match find_named(&ctx.tree_models, target.as_str()) {
            Some(schema) => read_schema(schema),
            None => None,
        },
    }
}

/// The schema that a branch stands for, and whether it is that of a model that it refers to.
pub open spec fn resolved(
    ctx: TsContext,
    models: Seq<JsonModel>,
    branch: Schema,
) -> (Schema, bool) {
    match branch.reference {
        Some(reference) => match found_schema(ctx, models, reference@) {
            Some(schema) => (schema, true),
            None => (branch, false),
        },
        None => (branch, false),
    }
}

fn resolve<'a>(ctx: &'a TsContext, models: &'a Vec<JsonModel>, branch: &'a Schema) -> (result: (
    &'a Schema,
    bool,
))
    ensures
        (*result.0, result.1) == resolved(*ctx, models@, *branch),
{
    match &branch.reference {
        Some(reference) => match find_ref_schema(ctx, reference.as_str(), models) {
            Some(schema) => (schema, true),
            None => (branch, false),
        },
        None => (branch, false),
    }
}

/// The value that a property is fixed to, by `const` or by an `enum` of one value.
pub open spec fn discriminator_const(property: Schema) -> Option<JsonValue> {
    match property.const_value {
        Some(value) => Some(value),
        None => match property.enum_values {
            Some(values) => if values@.len() == 1 {
                Some(values@[0])
            } else {
                None
            },
            None => None,
        },
    }
}

/// The value that a property is fixed to, by `const` or by an `enum` of one value.
pub fn ts_discriminator_const(property: &Schema) -> (value: Option<&JsonValue>)
    ensures
        pointed(value) == discriminator_const(*property),
{
    match &property.const_value {
        Some(value) => Some(value),
        None => match &property.enum_values {
            Some(values) => if values.len() == 1 {
                Some(&values[0])
            } else {
                None
            },
            None => None,
        },
    }
}

/// The schema of the first property with a name.
pub open spec fn property_named(properties: Seq<Property>, name: Seq<char>) -> Option<Schema>
    decreases properties.len(),
{
    if properties.len() == 0 {
        None
    } else if properties[0].name@ == name {
        Some(properties[0].schema)
    } else {
        property_named(properties.drop_first(), name)
    }
}

fn find_property<'a>(properties: &'a Vec<Property>, name: &str) -> (schema: Option<&'a Schema>)
    ensures
        match (schema, property_named(properties@, name@)) {
            (Some(found), Some(wanted)) => *found == wanted,
            (None, None) => true,
            _ => false,
        },
{
    let mut i: usize = 0;
    assert(properties@.skip(0) =~= properties@);
    while i < properties.len()
        invariant
            i <= properties.len(),
            property_named(properties@, name@) == property_named(
                properties@.skip(i as int),
                name@,
            ),
        decreases properties.len() - i,
    {
        assert(properties@.skip(i as int).drop_first() =~= properties@.skip(i + 1));
        if text_eq(properties[i].name.as_str(), name) {
            return Some(&properties[i].schema);
        }
        i += 1;
    }
    None
}

/// Whether a schema requires a member.
pub open spec fn member_required(schema: Schema, name: Seq<char>) -> bool {
    match schema.required {
        Some(required) => crate::text::texts(required@).contains(name),
        None => false,
    }
}

/// Whether a schema requires a member.
pub fn requires_member(schema: &Schema, name: &str) -> (result: bool)
    ensures
        result == member_required(*schema, name@),
{
    match &schema.required {
        Some(required) => contains_text(required, name),
        None => false,
    }
}

/// The value that an object is told by under a name: that of a required member that is fixed.
pub open spec fn tag_of(object: Schema, name: Seq<char>) -> Option<JsonValue> {
    if member_required(object, name) {
        match object.properties {
            Some(properties) => match property_named(properties@, name) {
                Some(property) => discriminator_const(property),
                None => None,
            },
            None => None,
        }
    } else {
        None
    }
}

/// The value that an object is told by under a name: that of a required member that is fixed.
pub fn ts_branch_discriminator_tag<'a>(object: &'a Schema, name: &str) -> (value: Option<
    &'a JsonValue,
>)
    ensures
        pointed(value) == tag_of(*object, name@),
{
    if requires_member(object, name) {
        match &object.properties {
            Some(properties) => match find_property(properties, name) {
                Some(property) => ts_discriminator_const(property),
                None => None,
            },
            None => None,
        }
    } else {
        None
    }
}

/// Whether objects can be told apart by a name: each has a tag under it, and no two are the same.
pub open spec fn is_discriminant(objects: Seq<Schema>, name: Seq<char>) -> bool {
    &&& forall|k: int| 0 <= k < objects.len() ==> tag_of(#[trigger] objects[k], name) is Some
    &&& forall|j: int, k: int|
        #![trigger objects[j], objects[k]]
    0 <= j < k < objects.len() ==> !crate::json_schema::value::same_value(
        tag_of(objects[j], name)->Some_0,
        tag_of(objects[k], name)->Some_0,
    )
}

/// The least name of properties by which objects can be told apart.
pub open spec fn least_discriminant(objects: Seq<Schema>, properties: Seq<Property>) -> Option<
    Seq<char>,
>
    decreases properties.len(),
{
    if properties.len() == 0 {
        None
    } else {
        let before = least_discriminant(objects, properties.drop_last());
        let name = properties.last().name@;
        if is_discriminant(objects, name) && (match before {
                Some(least) => crate::paths::text_before(name, least),
                None => true,
        }) {
            Some(name)
        } else {
            before
        }
    }
}

/// The name by which two or more objects are told apart: the least that does so.
pub open spec fn discriminant_of(objects: Seq<Schema>) -> Option<Seq<char>> {
    if objects.len() >= 2 {
        match objects[0].properties {
            Some(properties) => least_discriminant(objects, properties@),
            None => None,
        }
    } else {
        None
    }
}

proof fn lemma_least_discriminant(objects: Seq<Schema>, properties: Seq<Property>)
    ensures
        match least_discriminant(objects, properties) {
            Some(least) => {
                &&& is_discriminant(objects, least)
                &&& forall|i: int|
                    0 <= i < properties.len() && is_discriminant(
                        objects,
                        #[trigger] properties[i].name@,
                    ) ==> !crate::paths::text_before(properties[i].name@, least)
            },
            None => forall|i: int|
                0 <= i < properties.len() ==> !is_discriminant(
                    objects,
                    #[trigger] properties[i].name@,
                ),
        },
    decreases properties.len(),
{
    if properties.len() > 0 {
        let front = properties.drop_last();
        lemma_least_discriminant(objects, front);
        let name = properties.last().name@;
        assert forall|i: int| 0 <= i < properties.len() && i != properties.len() - 1 implies (
        #[trigger] properties[i]).name@ == front[i].name@ by {}
        match least_discriminant(objects, front) {
            Some(least) => {
                crate::paths::lemma_text_before_total(name, least);
                crate::paths::lemma_text_before_total(name, name);
                if is_discriminant(objects, name) && crate::paths::text_before(name, least) {
                    assert forall|i: int|
                        0 <= i < properties.len() && is_discriminant(
                            objects,
                            #[trigger] properties[i].name@,
                        ) implies !crate::paths::text_before(properties[i].name@, name) by {
                        if i < properties.len() - 1 {
                            assert(!crate::paths::text_before(front[i].name@, least));
                            if crate::paths::text_before(properties[i].name@, name) {
                                crate::paths::lemma_text_before_transitive(
                                    properties[i].name@,
                                    name,
                                    least,
                                );
                            }
                        }
                    }
                } else {
                    assert forall|i: int|
                        0 <= i < properties.len() && is_discriminant(
                            objects,
                            #[trigger] properties[i].name@,
                        ) implies !crate::paths::text_before(properties[i].name@, least) by {
                        if i < properties.len() - 1 {
                            assert(!crate::paths::text_before(front[i].name@, least));
                        }
                    }
                }
            },
            None => {
                crate::paths::lemma_text_before_total(name, name);
                assert forall|i: int|
                    0 <= i < properties.len() && is_discriminant(
                        objects,
                        #[trigger] properties[i].name@,
                    ) implies i == properties.len() - 1 by {
                    if i < properties.len() - 1 {
                        assert(!is_discriminant(objects, front[i].name@));
                    }
                }
            },
        }
    }
}

proof fn lemma_named_property(properties: Seq<Property>, name: Seq<char>)
    requires
        property_named(properties, name) is Some,
    ensures
        exists|i: int| 0 <= i < properties.len() && (#[trigger] properties[i]).name@ == name,
    decreases properties.len(),
{
    if properties[0].name@ == name {
    } else {
        lemma_named_property(properties.drop_first(), name);
        let i = choose|i: int|
            0 <= i < properties.drop_first().len() && (
            #[trigger] properties.drop_first()[i]).name@ == name;
        assert(properties[i + 1].name@ == name);
    }
}

/// The name by which objects are told apart does tell them apart, and no lesser name does. Where
/// there is none, no name tells them apart.
pub proof fn law_discriminant_is_least(objects: Seq<Schema>)
    requires
        objects.len() >= 2,
    ensures
        match discriminant_of(objects) {
            Some(least) => {
                &&& is_discriminant(objects, least)
                &&& forall|name: Seq<char>| #[trigger]
                    is_discriminant(objects, name) ==> !crate::paths::text_before(name, least)
            },
            None => forall|name: Seq<char>| !#[trigger] is_discriminant(objects, name),
        },
{
    match objects[0].properties {
        Some(properties) => {
            lemma_least_discriminant(objects, properties@);
            assert forall|name: Seq<char>| #[trigger] is_discriminant(objects, name) implies exists|
                i: int,
            |
                0 <= i < properties@.len() && (#[trigger] properties@[i]).name@ == name by {
                assert(tag_of(objects[0], name) is Some);
                lemma_named_property(properties@, name);
            }
        },
        None => {
            assert forall|name: Seq<char>| !#[trigger] is_discriminant(objects, name) by {
                assert(tag_of(objects[0], name) is None);
            }
        },
    }
}

/// The schemas that references point to.
pub open spec fn pointed_schemas(schemas: Seq<&Schema>) -> Seq<Schema> {
    schemas.map_values(|schema: &Schema| *schema)
}

fn tells_apart(objects: &Vec<&Schema>, name: &str) -> (result: bool)
    ensures
        result == is_discriminant(pointed_schemas(objects@), name@),
{
    let ghost all = pointed_schemas(objects@);
    let mut i: usize = 0;
    while i < objects.len()
        invariant
            i <= objects.len(),
            all == pointed_schemas(objects@),
            forall|k: int| 0 <= k < i ==> tag_of(#[trigger] all[k], name@) is Some,
            forall|j: int, k: int|
                #![trigger all[j], all[k]]
                0 <= j < k < i ==> !crate::json_schema::value::same_value(
                    tag_of(all[j], name@)->Some_0,
                    tag_of(all[k], name@)->Some_0,
                ),
        decreases objects.len() - i,
    {
        assert(all[i as int] == *objects@[i as int]);
        match ts_branch_discriminator_tag(objects[i], name) {
            Some(tag) => {
                let mut j: usize = 0;
                while j < i
                    invariant
                        j <= i < objects.len(),
                        all == pointed_schemas(objects@),
                        tag_of(all[i as int], name@) == Some(*tag),
                        forall|k: int| 0 <= k < i ==> tag_of(#[trigger] all[k], name@) is Some,
                        forall|k: int|
                            0 <= k < j ==> !crate::json_schema::value::same_value(
                                tag_of(#[trigger] all[k], name@)->Some_0,
                                *tag,
                            ),
                    decreases i - j,
                {
                    assert(all[j as int] == *objects@[j as int]);
                    assert(tag_of(all[j as int], name@) is Some);
                    match ts_branch_discriminator_tag(objects[j], name) {
                        Some(earlier) => {
                            if values_same(earlier, tag) {
                                assert(
                                    all[j as int] == all[j as int] && all[i as int] == all[i as int]
                                );
                                return false;
                            }
                        },
                        None => {},
                    }
                    j += 1;
                }
            },
            None => {
                assert(tag_of(all[i as int], name@) is None);
                return false;
            },
        }
        i += 1;
    }
    true
}

/// The name by which two or more objects are told apart: the least that does so.
fn find_discriminant(objects: &Vec<&Schema>) -> (name: Option<String>)
    ensures
        crate::text::opt_text(name) == discriminant_of(pointed_schemas(objects@)),
{
    if objects.len() < 2 {
        return None;
    }
    let ghost all = pointed_schemas(objects@);
    assert(all[0] == *objects@[0]);
    let first: &Schema = objects[0];
    match &first.properties {
        Some(properties) => {
            let mut least: Option<String> = None;
            let mut i: usize = 0;
            while i < properties.len()
                invariant
                    i <= properties.len(),
                    all == pointed_schemas(objects@),
                    crate::text::opt_text(least) == least_discriminant(
                        all,
                        properties@.take(i as int),
                    ),
                decreases properties.len() - i,
            {
                assert(properties@.take(i + 1).drop_last() =~= properties@.take(i as int));
                let name = properties[i].name.as_str();
                let better = match &least {
                    Some(before) => match place_texts(name, before.as_str()) {
                        Placement::Before => true,
                        _ => false,
                    },
                    None => true,
                };
                if better && tells_apart(objects, name) {
                    least = Some(name.to_owned());
                }
                i += 1;
            }
            assert(properties@.take(i as int) =~= properties@);
            least
        },
        None => None,
    }
}

/// The schemas of the branches that are objects.
pub open spec fn object_schemas(
    ctx: TsContext,
    models: Seq<JsonModel>,
    branches: Seq<Schema>,
) -> Seq<
    Schema,
>
    decreases branches.len(),
{
    if branches.len() == 0 {
        Seq::empty()
    } else {
        let schema = resolved(ctx, models, branches.last()).0;
        let before = object_schemas(ctx, models, branches.drop_last());
        if crate::json_schema::schema::has_type(schema, "object"@) {
            before.push(schema)
        } else {
            before
        }
    }
}

/// A member of a union that is a scalar or an array.
pub open spec fn simple_variant(
    ts_type: Seq<char>,
    typeof_guard: Option<Seq<char>>,
    is_integer: bool,
    is_array: bool,
    label: Seq<char>,
    schema: Schema,
    followed: bool,
) -> VariantView {
    VariantView {
        ts_type,
        is_object: false,
        converter: None,
        discriminant_value: None,
        typeof_guard,
        is_integer,
        is_array,
        label,
        schema,
        followed,
    }
}

/// The tag of an object under the name by which objects are told apart.
pub open spec fn variant_tag(schema: Schema, discriminant: Option<Seq<char>>) -> Option<JsonValue> {
    match discriminant {
        Some(name) => tag_of(schema, name),
        None => None,
    }
}

/// The type of the values of an object without a name.
pub open spec fn inline_object_type(ctx: TsContext, schema: Schema) -> Seq<char> {
    match crate::json_schema::annotation::map_shape(ctx, schema) {
        Ok(Some(shape)) => shape.value_annotation,
        _ => "unknown"@,
    }
}

/// A member of a union that is an object: a model that is referred to, or a map.
pub open spec fn object_variant(
    ctx: TsContext,
    branch: Schema,
    schema: Schema,
    followed: bool,
    discriminant: Option<Seq<char>>,
) -> VariantView {
    let name = match branch.reference {
        Some(reference) => crate::json_schema::ts_text::referenced_model(ctx, reference@),
        None => "Record<string, "@ + inline_object_type(ctx, schema) + ">"@,
    };
    VariantView {
        ts_type: name,
        is_object: true,
        converter: match branch.reference {
            Some(_) => Some(crate::json_schema::ts_text::converter_name(name)),
            None => None,
        },
        discriminant_value: variant_tag(schema, discriminant),
        typeof_guard: None,
        is_integer: false,
        is_array: false,
        label: match branch.reference {
            Some(_) => name,
            None => "object"@,
        },
        schema,
        followed,
    }
}

/// The member of a union that a branch is, where it is one.
pub open spec fn variant_of(
    ctx: TsContext,
    models: Seq<JsonModel>,
    branch: Schema,
    discriminant: Option<Seq<char>>,
) -> Option<VariantView> {
    let (schema, followed) = resolved(ctx, models, branch);
    if crate::json_schema::schema::has_type(schema, "object"@) {
        Some(object_variant(ctx, branch, schema, followed, discriminant))
    } else if crate::json_schema::schema::has_type(schema, "string"@) {
        Some(
            simple_variant(
                crate::json_schema::annotation::annotation_or_else(ctx, schema, "string"@),
                Some("string"@),
                false,
                false,
                "string"@,
                schema,
                followed,
            ),
        )
    } else if crate::json_schema::schema::has_type(schema, "integer"@) {
        Some(
            simple_variant(
                crate::json_schema::annotation::annotation_or_else(ctx, schema, "number"@),
                Some("number"@),
                true,
                false,
                "integer"@,
                schema,
                followed,
            ),
        )
    } else if crate::json_schema::schema::has_type(schema, "number"@) {
        Some(
            simple_variant(
                crate::json_schema::annotation::annotation_or_else(ctx, schema, "number"@),
                Some("number"@),
                false,
                false,
                "number"@,
                schema,
                followed,
            ),
        )
    } else if crate::json_schema::schema::has_type(schema, "boolean"@) {
        Some(
            simple_variant(
                crate::json_schema::annotation::annotation_or_else(ctx, schema, "boolean"@),
                Some("boolean"@),
                false,
                false,
                "boolean"@,
                schema,
                followed,
            ),
        )
    } else if crate::json_schema::schema::has_type(schema, "array"@) {
        let ts_type = crate::json_schema::annotation::annotation_or_else(ctx, schema, "unknown[]"@);
        Some(simple_variant(ts_type, None, false, true, ts_type, schema, followed))
    } else {
        None
    }
}

/// The members of a union that branches are.
pub open spec fn branch_variants(
    ctx: TsContext,
    models: Seq<JsonModel>,
    branches: Seq<Schema>,
    discriminant: Option<Seq<char>>,
) -> Seq<VariantView>
    decreases branches.len(),
{
    if branches.len() == 0 {
        Seq::empty()
    } else {
        let before = branch_variants(ctx, models, branches.drop_last(), discriminant);
        match variant_of(ctx, models, branches.last(), discriminant) {
            Some(variant) => before.push(variant),
            None => before,
        }
    }
}

/// Whether one of the branches is `null`.
pub open spec fn some_branch_null(
    ctx: TsContext,
    models: Seq<JsonModel>,
    branches: Seq<Schema>,
) -> bool {
    exists|i: int|
        0 <= i < branches.len() && crate::json_schema::schema::has_type(
        resolved(ctx, models, #[trigger] branches[i]).0,
        "null"@,
    )
}

/// The union that a sum type is.
pub open spec fn union_of(
    ctx: TsContext,
    models: Seq<JsonModel>,
    schema: Schema,
) -> Option<UnionView> {
    if !crate::json_schema::annotation::is_union(schema) {
        None
    } else {
        match schema.one_of {
            Some(branches) => {
                let discriminant = discriminant_of(object_schemas(ctx, models, branches@));
                Some(
                    UnionView {
                        nullable: some_branch_null(ctx, models, branches@),
                        discriminant,
                        variants: branch_variants(ctx, models, branches@, discriminant),
                    },
                )
            },
            None => None,
        }
    }
}

/// A member of a union that does not come from a reference has the schema of a branch.
pub proof fn lemma_inline_variants(
    ctx: TsContext,
    models: Seq<JsonModel>,
    branches: Seq<Schema>,
    discriminant: Option<Seq<char>>,
)
    ensures
        forall|k: int|
            0 <= k < branch_variants(ctx, models, branches, discriminant).len() && !(
            #[trigger] branch_variants(ctx, models, branches, discriminant)[k]).followed
                ==> branches.contains(
                branch_variants(ctx, models, branches, discriminant)[k].schema,
            ),
    decreases branches.len(),
{
    if branches.len() > 0 {
        let front = branches.drop_last();
        lemma_inline_variants(ctx, models, front, discriminant);
        let before = branch_variants(ctx, models, front, discriminant);
        let all = branch_variants(ctx, models, branches, discriminant);
        assert forall|k: int| 0 <= k < all.len()
            && !(#[trigger] all[k]).followed implies branches.contains(
            all[k].schema,
        ) by {
            if k < before.len() {
                assert(all[k] == before[k]);
                assert(front.contains(before[k].schema));
                let i = choose|i: int| 0 <= i < front.len() && front[i] == before[k].schema;
                assert(branches[i] == all[k].schema);
            } else {
                assert(branches[branches.len() - 1] == all[k].schema);
            }
        }
    }
}

/// The schema of an inline member of a union is smaller than that of the union.
pub proof fn lemma_variant_smaller(ctx: TsContext, models: Seq<JsonModel>, schema: Schema, k: int)
    requires
        union_of(ctx, models, schema) is Some,
        0 <= k < union_of(ctx, models, schema)->Some_0.variants.len(),
        !union_of(ctx, models, schema)->Some_0.variants[k].followed,
    ensures
        decreases_to!(schema => union_of(ctx, models, schema)->Some_0.variants[k].schema),
{
    let branches = schema.one_of->Some_0@;
    let discriminant = discriminant_of(object_schemas(ctx, models, branches));
    lemma_inline_variants(ctx, models, branches, discriminant);
    let variant = branch_variants(ctx, models, branches, discriminant)[k];
    let i = choose|i: int| 0 <= i < branches.len() && branches[i] == variant.schema;
    crate::json_schema::annotation::lemma_branch_smaller(schema, i);
}

fn new_variant<'a>(
    ts_type: String,
    typeof_guard: Option<String>,
    is_integer: bool,
    is_array: bool,
    label: String,
    schema: &'a Schema,
    followed: bool,
) -> (variant: TsUnionVariant<'a>)
    ensures
        variant@ == simple_variant(
            ts_type@,
            crate::text::opt_text(typeof_guard),
            is_integer,
            is_array,
            label@,
            *schema,
            followed,
        ),
{
    TsUnionVariant {
        ts_type,
        is_object: false,
        converter: None,
        discriminant_value: None,
        typeof_guard,
        is_integer,
        is_array,
        label,
        schema,
        followed,
    }
}

fn new_object_variant<'a>(
    ctx: &'a TsContext,
    branch: &'a Schema,
    schema: &'a Schema,
    followed: bool,
    discriminant: &Option<String>,
) -> (variant: TsUnionVariant<'a>)
    ensures
        variant@ == object_variant(
            *ctx,
            *branch,
            *schema,
            followed,
            crate::text::opt_text(*discriminant),
        ),
{
    let discriminant_value = match discriminant {
        Some(name) => ts_branch_discriminator_tag(schema, name.as_str()),
        None => None,
    };
    match &branch.reference {
        Some(reference) => {
            let name = reference_model_name(ctx, reference.as_str());
            let converter = ts_transfer_type_converter_name(name.as_str());
            TsUnionVariant {
                ts_type: name.clone(),
                is_object: true,
                converter: Some(converter),
                discriminant_value,
                typeof_guard: None,
                is_integer: false,
                is_array: false,
                label: name,
                schema,
                followed,
            }
        },
        None => {
            let value = match ts_map_shape(ctx, schema) {
                Ok(Some(shape)) => shape.value_annotation,
                _ => "unknown".to_owned(),
            };
            TsUnionVariant {
                ts_type: "Record<string, ".to_owned().concat(value.as_str()).concat(">"),
                is_object: true,
                converter: None,
                discriminant_value,
                typeof_guard: None,
                is_integer: false,
                is_array: false,
                label: "object".to_owned(),
                schema,
                followed,
            }
        },
    }
}

/// The type of a scalar branch: its own, so that a fixed value narrows it, else the primitive.
pub open spec fn scalar_branch_type(
    ctx: TsContext,
    schema: Schema,
    primitive: Seq<char>,
) -> Seq<char> {
    crate::json_schema::annotation::annotation_or_else(ctx, schema, primitive)
}

/// The type of a scalar branch: its own, so that a fixed value narrows it, else the primitive.
pub fn ts_scalar_branch_type(
    ctx: &TsContext,
    schema: &Schema,
    primitive: &str,
) -> (result: String)
    ensures
        result@ == scalar_branch_type(*ctx, *schema, primitive@),
{
    annotation_or(ctx, schema, primitive)
}

fn classify_branch<'a>(
    ctx: &'a TsContext,
    models: &'a Vec<JsonModel>,
    branch: &'a Schema,
    discriminant: &Option<String>,
) -> (variant: Option<TsUnionVariant<'a>>)
    ensures
        match (
            variant,
            variant_of(*ctx, models@, *branch, crate::text::opt_text(*discriminant)),
        ) {
            (Some(found), Some(wanted)) => found@ == wanted,
            (None, None) => true,
            _ => false,
        },
{
    let (schema, followed) = resolve(ctx, models, branch);
    if type_is(schema, "object") {
        Some(new_object_variant(ctx, branch, schema, followed, discriminant))
    } else if type_is(schema, "string") {
        Some(
            new_variant(
                ts_scalar_branch_type(ctx, schema, "string"),
                Some("string".to_owned()),
                false,
                false,
                "string".to_owned(),
                schema,
                followed,
            ),
        )
    } else if type_is(schema, "integer") {
        Some(
            new_variant(
                ts_scalar_branch_type(ctx, schema, "number"),
                Some("number".to_owned()),
                true,
                false,
                "integer".to_owned(),
                schema,
                followed,
            ),
        )
    } else if type_is(schema, "number") {
        Some(
            new_variant(
                ts_scalar_branch_type(ctx, schema, "number"),
                Some("number".to_owned()),
                false,
                false,
                "number".to_owned(),
                schema,
                followed,
            ),
        )
    } else if type_is(schema, "boolean") {
        Some(
            new_variant(
                ts_scalar_branch_type(ctx, schema, "boolean"),
                Some("boolean".to_owned()),
                false,
                false,
                "boolean".to_owned(),
                schema,
                followed,
            ),
        )
    } else if type_is(schema, "array") {
        let ts_type = annotation_or(ctx, schema, "unknown[]");
        Some(new_variant(ts_type.clone(), None, false, true, ts_type, schema, followed))
    } else {
        None
    }
}

fn collect_objects<'a>(
    ctx: &'a TsContext,
    models: &'a Vec<JsonModel>,
    branches: &'a Vec<Schema>,
) -> (objects: Vec<&'a Schema>)
    ensures
        pointed_schemas(objects@) == object_schemas(*ctx, models@, branches@),
{
    let mut objects: Vec<&'a Schema> = Vec::new();
    let mut i: usize = 0;
    while i < branches.len()
        invariant
            i <= branches.len(),
            pointed_schemas(objects@) == object_schemas(
                *ctx,
                models@,
                branches@.take(i as int),
            ),
        decreases branches.len() - i,
    {
        assert(branches@.take(i + 1).drop_last() =~= branches@.take(i as int));
        let (schema, _) = resolve(ctx, models, &branches[i]);
        if type_is(schema, "object") {
            let ghost before = objects@;
            objects.push(schema);
            assert(pointed_schemas(objects@) =~= pointed_schemas(before).push(*schema));
        }
        i += 1;
    }
    assert(branches@.take(i as int) =~= branches@);
    objects
}

/// The union that a sum type is.
pub fn classify_ts_union<'a>(
    ctx: &'a TsContext,
    schema: &'a Schema,
    models: &'a Vec<JsonModel>,
) -> (union: Option<TsUnion<'a>>)
    ensures
        match (union, union_of(*ctx, models@, *schema)) {
            (Some(found), Some(wanted)) => found@ == wanted,
            (None, None) => true,
            _ => false,
        },
{
    if !is_ts_union(schema) {
        return None;
    }
    match &schema.one_of {
        Some(branches) => {
            let objects = collect_objects(ctx, models, branches);
            let discriminant = find_discriminant(&objects);
            let mut nullable = false;
            let mut variants: Vec<TsUnionVariant<'a>> = Vec::new();
            let mut i: usize = 0;
            while i < branches.len()
                invariant
                    i <= branches.len(),
                    nullable == exists|k: int|
                        0 <= k < i && crate::json_schema::schema::has_type(
                            resolved(*ctx, models@, #[trigger] branches@[k]).0,
                            "null"@,
                        ),
                    variant_views(variants@) == branch_variants(
                        *ctx,
                        models@,
                        branches@.take(i as int),
                        crate::text::opt_text(discriminant),
                    ),
                decreases branches.len() - i,
            {
                assert(branches@.take(i + 1).drop_last() =~= branches@.take(i as int));
                let (resolved_schema, _) = resolve(ctx, models, &branches[i]);
                if type_is(resolved_schema, "null") {
                    nullable = true;
                }
                match classify_branch(ctx, models, &branches[i], &discriminant) {
                    Some(variant) => {
                        let ghost before = variants@;
                        variants.push(variant);
                        assert(variant_views(variants@) =~= variant_views(before).push(variant@));
                    },
                    None => {},
                }
                i += 1;
            }
            assert(branches@.take(i as int) =~= branches@);
            Some(TsUnion { nullable, discriminant, variants })
        },
        None => None,
    }
}

/// The guard that selects a scalar or an array out of the values of a union.
pub open spec fn variant_guard(variant: VariantView, value_expr: Seq<char>) -> Option<Seq<char>> {
    if variant.is_array {
        Some("Array.isArray("@ + value_expr + ")"@)
    } else if variant.is_integer {
        Some(
            "typeof "@ + value_expr + " === 'number' && Number.isSafeInteger("@ + value_expr
                + ")"@,
        )
    } else {
        match variant.typeof_guard {
            Some(guard) => Some("typeof "@ + value_expr + " === '"@ + guard + "'"@),
            None => None,
        }
    }
}

/// The guard that selects a scalar or an array out of the values of a union.
pub fn ts_variant_guard(variant: &TsUnionVariant, value_expr: &str) -> (result: Option<String>)
    ensures
        crate::text::opt_text(result) == variant_guard(variant@, value_expr@),
{
    if variant.is_array {
        Some("Array.isArray(".to_owned().concat(value_expr).concat(")"))
    } else if variant.is_integer {
        Some(
            "typeof ".to_owned().concat(value_expr).concat(" === 'number' && Number.isSafeInteger(")
                .concat(value_expr).concat(")"),
        )
    } else {
        match &variant.typeof_guard {
            Some(guard) => Some(
                "typeof ".to_owned().concat(value_expr).concat(" === '").concat(guard.as_str())
                    .concat("'"),
            ),
            None => None,
        }
    }
}

} // verus!
