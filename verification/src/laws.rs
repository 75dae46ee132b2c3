//! Laws of the capability checker, proved from the spec functions of
//! [`crate::validate`] that the executable checker's contracts are stated
//! over.
use vstd::prelude::*;

use crate::lookup::spec_lookup;
use crate::schema::BooleanExpressionComparableRelationship;
use crate::schema::BooleanExpressionError;
use crate::schema::BooleanExpressionIssue;
use crate::schema::BooleanExpressionTypes;
use crate::schema::ComparisonExpressionInfo;
use crate::schema::DataConnectorLink;
use crate::schema::FeatureFlags;
use crate::schema::FieldMapping;
use crate::schema::Model;
use crate::schema::ModelSource;
use crate::schema::ObjectComparisonExpressionInfo;
use crate::schema::ObjectComparisonKind;
use crate::schema::ObjectTypeWithRelationships;
use crate::schema::Relationship;
use crate::schema::RelationshipFieldMapping;
use crate::schema::RelationshipModelTarget;
use crate::schema::RelationshipTarget;
use crate::schema::ResolvedObjectBooleanExpressionType;
use crate::schema::ResolvedScalarBooleanExpressionType;
use crate::schema::TypeMapping;
use crate::validate::spec_check_object_fields;
use crate::validate::spec_check_relationship_mappings;
use crate::validate::spec_check_scalar_fields;
use crate::validate::spec_eq_operator;
use crate::validate::spec_get_field_type;
use crate::validate::spec_validate;
use crate::validate::spec_validate_relationship;

verus! {

/// A predicate type whose three field maps are all empty validates against any
/// data connector, with any capabilities and flags, to success with an empty
/// issue list.
pub proof fn lemma_empty_fields_validate_ok(
    data_connector: DataConnectorLink,
    source_type_mappings: Seq<(String, TypeMapping)>,
    object_boolean_expression_type: ResolvedObjectBooleanExpressionType,
    boolean_expression_types: BooleanExpressionTypes,
    object_types: Seq<(String, ObjectTypeWithRelationships)>,
    models: Map<Seq<char>, Model>,
    flags: FeatureFlags,
    visiting: Set<Seq<char>>,
)
    requires
        object_boolean_expression_type.fields.object_fields@.len() == 0,
        object_boolean_expression_type.fields.scalar_fields@.len() == 0,
        object_boolean_expression_type.fields.relationship_fields@.len() == 0,
    ensures
        spec_validate(
            data_connector,
            source_type_mappings,
            object_boolean_expression_type,
            boolean_expression_types,
            object_types,
            models,
            flags,
            visiting,
        ) == Ok::<Seq<BooleanExpressionIssue>, BooleanExpressionError>(
            Seq::<BooleanExpressionIssue>::empty(),
        ),
{
    assert(Seq::<BooleanExpressionIssue>::empty() + Seq::<BooleanExpressionIssue>::empty()
        =~= Seq::<BooleanExpressionIssue>::empty());
}

/// A data connector without nested-object filtering rejects a predicate type
/// whose first object field is an `Object`-kind field, with the fatal
/// nested-object error naming that field and its declared type. (A first field
/// of `ObjectArray` kind degrades instead of failing and is not covered here.)
pub proof fn lemma_nested_object_filtering_unsupported_fails(
    data_connector: DataConnectorLink,
    source_type_mappings: Seq<(String, TypeMapping)>,
    object_boolean_expression_type: ResolvedObjectBooleanExpressionType,
    boolean_expression_types: BooleanExpressionTypes,
    object_types: Seq<(String, ObjectTypeWithRelationships)>,
    models: Map<Seq<char>, Model>,
    flags: FeatureFlags,
    visiting: Set<Seq<char>>,
)
    requires
        flags.enable_boolean_expression_fields,
        !data_connector.capabilities.supports_nested_object_filtering,
        object_boolean_expression_type.fields.object_fields@.len() > 0,
        object_boolean_expression_type.fields.object_fields@[0].1.field_kind
            == ObjectComparisonKind::Object,
        spec_lookup(
            boolean_expression_types.objects@,
            object_boolean_expression_type.fields.object_fields@[0].1.boolean_expression_type_name@,
        ) is Some,
        spec_get_field_type(
            object_boolean_expression_type.fields.object_fields@[0].0,
            object_types,
            object_boolean_expression_type,
        ) is Ok,
    ensures
        spec_validate(
            data_connector,
            source_type_mappings,
            object_boolean_expression_type,
            boolean_expression_types,
            object_types,
            models,
            flags,
            visiting,
        ) == Err::<Seq<BooleanExpressionIssue>, BooleanExpressionError>(
            BooleanExpressionError::DataConnectorDoesNotSupportNestedObjectFiltering {
                data_connector_name: data_connector.name,
                boolean_expression_type_name: object_boolean_expression_type.name,
                field_name: object_boolean_expression_type.fields.object_fields@[0].0,
                field_type: spec_get_field_type(
                    object_boolean_expression_type.fields.object_fields@[0].0,
                    object_types,
                    object_boolean_expression_type,
                )->Ok_0,
            },
        ),
{
}

/// The issue recorded for an object-array field a connector cannot filter.
pub open spec fn object_array_issue(
    data_connector: DataConnectorLink,
    object_boolean_expression_type: ResolvedObjectBooleanExpressionType,
    object_types: Seq<(String, ObjectTypeWithRelationships)>,
    field_name: String,
) -> BooleanExpressionIssue {
    BooleanExpressionIssue::DataConnectorDoesNotSupportNestedObjectArrayFiltering {
        data_connector_name: data_connector.name,
        boolean_expression_type_name: object_boolean_expression_type.name,
        field_name: field_name,
        field_type: spec_get_field_type(
            field_name,
            object_types,
            object_boolean_expression_type,
        )->Ok_0,
    }
}

/// On a connector without nested object-array filtering, a list of object
/// fields that are all of `ObjectArray` kind — each resolving to a child with
/// empty field maps and a declared field type — yields exactly one matching
/// issue per field, in field order.
pub proof fn lemma_object_array_fields_collect_issues(
    data_connector: DataConnectorLink,
    source_type_mappings: Seq<(String, TypeMapping)>,
    object_boolean_expression_type: ResolvedObjectBooleanExpressionType,
    object_fields: Seq<(String, ObjectComparisonExpressionInfo)>,
    boolean_expression_types: BooleanExpressionTypes,
    object_types: Seq<(String, ObjectTypeWithRelationships)>,
    models: Map<Seq<char>, Model>,
    flags: FeatureFlags,
    visiting: Set<Seq<char>>,
)
    requires
        !data_connector.capabilities.supports_nested_object_array_filtering,
        forall|i: int| 0 <= i < object_fields.len() ==> (#[trigger] object_fields[i]).1.field_kind
            == ObjectComparisonKind::ObjectArray,
        forall|i: int| 0 <= i < object_fields.len() ==> spec_lookup(
            boolean_expression_types.objects@,
            (#[trigger] object_fields[i]).1.boolean_expression_type_name@,
        ) is Some,
        forall|i: int| 0 <= i < object_fields.len() ==> {
            let child = spec_lookup(
                boolean_expression_types.objects@,
                (#[trigger] object_fields[i]).1.boolean_expression_type_name@,
            )->Some_0;
            child.fields.object_fields@.len() == 0 && child.fields.scalar_fields@.len() == 0
                && child.fields.relationship_fields@.len() == 0
        },
        forall|i: int| 0 <= i < object_fields.len() ==> !visiting.contains(
            (#[trigger] object_fields[i]).1.boolean_expression_type_name@,
        ),
        forall|i: int| 0 <= i < object_fields.len() ==> spec_get_field_type(
            (#[trigger] object_fields[i]).0,
            object_types,
            object_boolean_expression_type,
        ) is Ok,
    ensures
        spec_check_object_fields(
            data_connector,
            source_type_mappings,
            object_boolean_expression_type,
            object_fields,
            boolean_expression_types,
            object_types,
            models,
            flags,
            visiting,
        ) == Ok::<Seq<BooleanExpressionIssue>, BooleanExpressionError>(
            Seq::new(
                object_fields.len(),
                |i: int| object_array_issue(
                    data_connector,
                    object_boolean_expression_type,
                    object_types,
                    object_fields[i].0,
                ),
            ),
        ),
    decreases object_fields.len(),
{
    let expected = Seq::new(
        object_fields.len(),
        |i: int| object_array_issue(
            data_connector,
            object_boolean_expression_type,
            object_types,
            object_fields[i].0,
        ),
    );
    if object_fields.len() == 0 {
        assert(expected =~= Seq::<BooleanExpressionIssue>::empty());
    } else {
        let info = object_fields[0].1;
        let child = spec_lookup(
            boolean_expression_types.objects@,
            info.boolean_expression_type_name@,
        )->Some_0;
        lemma_empty_fields_validate_ok(
            data_connector,
            source_type_mappings,
            child,
            boolean_expression_types,
            object_types,
            models,
            flags,
            visiting.insert(info.boolean_expression_type_name@),
        );
        let rest = object_fields.drop_first();
        assert forall|i: int| 0 <= i < rest.len() implies (#[trigger] rest[i])
            == object_fields[i + 1] by {}
        lemma_object_array_fields_collect_issues(
            data_connector,
            source_type_mappings,
            object_boolean_expression_type,
            rest,
            boolean_expression_types,
            object_types,
            models,
            flags,
            visiting,
        );
        let rest_expected = Seq::new(
            rest.len(),
            |i: int| object_array_issue(
                data_connector,
                object_boolean_expression_type,
                object_types,
                rest[i].0,
            ),
        );
        let head = seq![
            object_array_issue(
                data_connector,
                object_boolean_expression_type,
                object_types,
                object_fields[0].0,
            ),
        ];
        assert(head + Seq::<BooleanExpressionIssue>::empty() + rest_expected =~= expected);
    }
}

/// On a connector without nested object-array filtering, a predicate type
/// whose object fields are all of `ObjectArray` kind (resolving as in
/// [`lemma_object_array_fields_collect_issues`]) and whose other field maps
/// are empty validates successfully, with exactly one matching issue per
/// object field.
pub proof fn lemma_object_array_fields_validate_with_issues(
    data_connector: DataConnectorLink,
    source_type_mappings: Seq<(String, TypeMapping)>,
    object_boolean_expression_type: ResolvedObjectBooleanExpressionType,
    boolean_expression_types: BooleanExpressionTypes,
    object_types: Seq<(String, ObjectTypeWithRelationships)>,
    models: Map<Seq<char>, Model>,
    flags: FeatureFlags,
    visiting: Set<Seq<char>>,
)
    requires
        flags.enable_boolean_expression_fields,
        !data_connector.capabilities.supports_nested_object_array_filtering,
        object_boolean_expression_type.fields.scalar_fields@.len() == 0,
        object_boolean_expression_type.fields.relationship_fields@.len() == 0,
        forall|i: int|
            0 <= i < object_boolean_expression_type.fields.object_fields@.len() ==> (
            #[trigger] object_boolean_expression_type.fields.object_fields@[i]).1.field_kind
                == ObjectComparisonKind::ObjectArray,
        forall|i: int|
            0 <= i < object_boolean_expression_type.fields.object_fields@.len() ==> spec_lookup(
                boolean_expression_types.objects@,
                (#[trigger] object_boolean_expression_type.fields.object_fields@[i]).1
                    .boolean_expression_type_name@,
            ) is Some,
        forall|i: int|
            0 <= i < object_boolean_expression_type.fields.object_fields@.len() ==> {
                let child = spec_lookup(
                    boolean_expression_types.objects@,
                    (#[trigger] object_boolean_expression_type.fields.object_fields@[i]).1
                        .boolean_expression_type_name@,
                )->Some_0;
                child.fields.object_fields@.len() == 0 && child.fields.scalar_fields@.len() == 0
                    && child.fields.relationship_fields@.len() == 0
            },
        forall|i: int|
            0 <= i < object_boolean_expression_type.fields.object_fields@.len()
                ==> !visiting.contains(
                (#[trigger] object_boolean_expression_type.fields.object_fields@[i]).1
                    .boolean_expression_type_name@,
            ),
        forall|i: int|
            0 <= i < object_boolean_expression_type.fields.object_fields@.len()
                ==> spec_get_field_type(
                (#[trigger] object_boolean_expression_type.fields.object_fields@[i]).0,
                object_types,
                object_boolean_expression_type,
            ) is Ok,
    ensures
        spec_validate(
            data_connector,
            source_type_mappings,
            object_boolean_expression_type,
            boolean_expression_types,
            object_types,
            models,
            flags,
            visiting,
        ) == Ok::<Seq<BooleanExpressionIssue>, BooleanExpressionError>(
            Seq::new(
                object_boolean_expression_type.fields.object_fields@.len(),
                |i: int| object_array_issue(
                    data_connector,
                    object_boolean_expression_type,
                    object_types,
                    object_boolean_expression_type.fields.object_fields@[i].0,
                ),
            ),
        ),
{
    lemma_object_array_fields_collect_issues(
        data_connector,
        source_type_mappings,
        object_boolean_expression_type,
        object_boolean_expression_type.fields.object_fields@,
        boolean_expression_types,
        object_types,
        models,
        flags,
        visiting,
    );
    let expected = Seq::new(
        object_boolean_expression_type.fields.object_fields@.len(),
        |i: int| object_array_issue(
            data_connector,
            object_boolean_expression_type,
            object_types,
            object_boolean_expression_type.fields.object_fields@[i].0,
        ),
    );
    assert(expected + Seq::<BooleanExpressionIssue>::empty() =~= expected);
}

/// Checking a concatenation of object-field lists checks the front, and on its
/// success the back, with the issues of both in order: the walk treats the
/// fields one after the other.
pub proof fn lemma_object_fields_split(
    data_connector: DataConnectorLink,
    source_type_mappings: Seq<(String, TypeMapping)>,
    object_boolean_expression_type: ResolvedObjectBooleanExpressionType,
    front: Seq<(String, ObjectComparisonExpressionInfo)>,
    back: Seq<(String, ObjectComparisonExpressionInfo)>,
    boolean_expression_types: BooleanExpressionTypes,
    object_types: Seq<(String, ObjectTypeWithRelationships)>,
    models: Map<Seq<char>, Model>,
    flags: FeatureFlags,
    visiting: Set<Seq<char>>,
)
    ensures
        spec_check_object_fields(
            data_connector,
            source_type_mappings,
            object_boolean_expression_type,
            front + back,
            boolean_expression_types,
            object_types,
            models,
            flags,
            visiting,
        ) == (match spec_check_object_fields(
            data_connector,
            source_type_mappings,
            object_boolean_expression_type,
            front,
            boolean_expression_types,
            object_types,
            models,
            flags,
            visiting,
        ) {
            Err(e) => Err::<Seq<BooleanExpressionIssue>, BooleanExpressionError>(e),
            Ok(front_issues) => match spec_check_object_fields(
                data_connector,
                source_type_mappings,
                object_boolean_expression_type,
                back,
                boolean_expression_types,
                object_types,
                models,
                flags,
                visiting,
            ) {
                Err(e) => Err::<Seq<BooleanExpressionIssue>, BooleanExpressionError>(e),
                Ok(back_issues) => Ok::<Seq<BooleanExpressionIssue>, BooleanExpressionError>(
                    front_issues + back_issues,
                ),
            },
        }),
    decreases front.len(),
{
    assert forall|x: Seq<BooleanExpressionIssue>, y: Seq<BooleanExpressionIssue>, z: Seq<
        BooleanExpressionIssue,
    >| #[trigger] ((x + y) + z) == x + (y + z) by {
        vstd::seq_lib::lemma_concat_associative(x, y, z);
    }
    if front.len() == 0 {
        assert(front + back =~= back);
        let back_result = spec_check_object_fields(
            data_connector,
            source_type_mappings,
            object_boolean_expression_type,
            back,
            boolean_expression_types,
            object_types,
            models,
            flags,
            visiting,
        );
        if back_result is Ok {
            assert(Seq::<BooleanExpressionIssue>::empty() + back_result->Ok_0 =~= back_result
                ->Ok_0);
        }
    } else {
        let all = front + back;
        assert(all[0] == front[0]);
        assert(all.drop_first() =~= front.drop_first() + back);
        lemma_object_fields_split(
            data_connector,
            source_type_mappings,
            object_boolean_expression_type,
            front.drop_first(),
            back,
            boolean_expression_types,
            object_types,
            models,
            flags,
            visiting,
        );
    }
}

/// Checking a concatenation of scalar-field lists checks the front, and on its
/// success the back, with the issues of both in order.
pub proof fn lemma_scalar_fields_split(
    data_connector: DataConnectorLink,
    object_boolean_expression_type: ResolvedObjectBooleanExpressionType,
    front: Seq<(String, ComparisonExpressionInfo)>,
    back: Seq<(String, ComparisonExpressionInfo)>,
    scalars: Seq<(String, ResolvedScalarBooleanExpressionType)>,
    object_types: Seq<(String, ObjectTypeWithRelationships)>,
)
    ensures
        spec_check_scalar_fields(
            data_connector,
            object_boolean_expression_type,
            front + back,
            scalars,
            object_types,
        ) == (match spec_check_scalar_fields(
            data_connector,
            object_boolean_expression_type,
            front,
            scalars,
            object_types,
        ) {
            Err(e) => Err::<Seq<BooleanExpressionIssue>, BooleanExpressionError>(e),
            Ok(front_issues) => match spec_check_scalar_fields(
                data_connector,
                object_boolean_expression_type,
                back,
                scalars,
                object_types,
            ) {
                Err(e) => Err::<Seq<BooleanExpressionIssue>, BooleanExpressionError>(e),
                Ok(back_issues) => Ok::<Seq<BooleanExpressionIssue>, BooleanExpressionError>(
                    front_issues + back_issues,
                ),
            },
        }),
    decreases front.len(),
{
    assert forall|x: Seq<BooleanExpressionIssue>, y: Seq<BooleanExpressionIssue>, z: Seq<
        BooleanExpressionIssue,
    >| #[trigger] ((x + y) + z) == x + (y + z) by {
        vstd::seq_lib::lemma_concat_associative(x, y, z);
    }
    if front.len() == 0 {
        assert(front + back =~= back);
        let back_result = spec_check_scalar_fields(
            data_connector,
            object_boolean_expression_type,
            back,
            scalars,
            object_types,
        );
        if back_result is Ok {
            assert(Seq::<BooleanExpressionIssue>::empty() + back_result->Ok_0 =~= back_result
                ->Ok_0);
        }
    } else {
        let all = front + back;
        assert(all[0] == front[0]);
        assert(all.drop_first() =~= front.drop_first() + back);
        lemma_scalar_fields_split(
            data_connector,
            object_boolean_expression_type,
            front.drop_first(),
            back,
            scalars,
            object_types,
        );
    }
}

/// The first fatal condition wins: whatever scalar fields follow an
/// already-failing list of them changes nothing, and no issue from the later
/// fields is reported alongside the error.
pub proof fn lemma_scalar_fields_error_short_circuits(
    data_connector: DataConnectorLink,
    object_boolean_expression_type: ResolvedObjectBooleanExpressionType,
    prefix: Seq<(String, ComparisonExpressionInfo)>,
    suffix: Seq<(String, ComparisonExpressionInfo)>,
    scalars: Seq<(String, ResolvedScalarBooleanExpressionType)>,
    object_types: Seq<(String, ObjectTypeWithRelationships)>,
    e: BooleanExpressionError,
)
    requires
        spec_check_scalar_fields(
            data_connector,
            object_boolean_expression_type,
            prefix,
            scalars,
            object_types,
        ) == Err::<Seq<BooleanExpressionIssue>, BooleanExpressionError>(e),
    ensures
        spec_check_scalar_fields(
            data_connector,
            object_boolean_expression_type,
            prefix + suffix,
            scalars,
            object_types,
        ) == Err::<Seq<BooleanExpressionIssue>, BooleanExpressionError>(e),
{
    lemma_scalar_fields_split(
        data_connector,
        object_boolean_expression_type,
        prefix,
        suffix,
        scalars,
        object_types,
    );
}

/// The first fatal condition wins: whatever object fields follow an
/// already-failing list of them changes nothing, and in particular no issue
/// from the later fields is reported alongside the error.
pub proof fn lemma_object_fields_error_short_circuits(
    data_connector: DataConnectorLink,
    source_type_mappings: Seq<(String, TypeMapping)>,
    object_boolean_expression_type: ResolvedObjectBooleanExpressionType,
    prefix: Seq<(String, ObjectComparisonExpressionInfo)>,
    suffix: Seq<(String, ObjectComparisonExpressionInfo)>,
    boolean_expression_types: BooleanExpressionTypes,
    object_types: Seq<(String, ObjectTypeWithRelationships)>,
    models: Map<Seq<char>, Model>,
    flags: FeatureFlags,
    visiting: Set<Seq<char>>,
    e: BooleanExpressionError,
)
    requires
        spec_check_object_fields(
            data_connector,
            source_type_mappings,
            object_boolean_expression_type,
            prefix,
            boolean_expression_types,
            object_types,
            models,
            flags,
            visiting,
        ) == Err::<Seq<BooleanExpressionIssue>, BooleanExpressionError>(e),
    ensures
        spec_check_object_fields(
            data_connector,
            source_type_mappings,
            object_boolean_expression_type,
            prefix + suffix,
            boolean_expression_types,
            object_types,
            models,
            flags,
            visiting,
        ) == Err::<Seq<BooleanExpressionIssue>, BooleanExpressionError>(e),
{
    lemma_object_fields_split(
        data_connector,
        source_type_mappings,
        object_boolean_expression_type,
        prefix,
        suffix,
        boolean_expression_types,
        object_types,
        models,
        flags,
        visiting,
    );
}

/// On a connector without nested-object filtering, the walk fails fatally at
/// the first `Object`-kind object field, even when a run of fields that check
/// out cleanly comes before it, with the error naming that field and its
/// declared type.
pub proof fn lemma_object_kind_field_after_clean_prefix_fails(
    data_connector: DataConnectorLink,
    source_type_mappings: Seq<(String, TypeMapping)>,
    object_boolean_expression_type: ResolvedObjectBooleanExpressionType,
    boolean_expression_types: BooleanExpressionTypes,
    object_types: Seq<(String, ObjectTypeWithRelationships)>,
    models: Map<Seq<char>, Model>,
    flags: FeatureFlags,
    visiting: Set<Seq<char>>,
    prefix: Seq<(String, ObjectComparisonExpressionInfo)>,
    rest: Seq<(String, ObjectComparisonExpressionInfo)>,
)
    requires
        flags.enable_boolean_expression_fields,
        !data_connector.capabilities.supports_nested_object_filtering,
        object_boolean_expression_type.fields.object_fields@ == prefix + rest,
        spec_check_object_fields(
            data_connector,
            source_type_mappings,
            object_boolean_expression_type,
            prefix,
            boolean_expression_types,
            object_types,
            models,
            flags,
            visiting,
        ) is Ok,
        rest.len() > 0,
        rest[0].1.field_kind == ObjectComparisonKind::Object,
        spec_lookup(
            boolean_expression_types.objects@,
            rest[0].1.boolean_expression_type_name@,
        ) is Some,
        spec_get_field_type(rest[0].0, object_types, object_boolean_expression_type) is Ok,
    ensures
        spec_validate(
            data_connector,
            source_type_mappings,
            object_boolean_expression_type,
            boolean_expression_types,
            object_types,
            models,
            flags,
            visiting,
        ) == Err::<Seq<BooleanExpressionIssue>, BooleanExpressionError>(
            BooleanExpressionError::DataConnectorDoesNotSupportNestedObjectFiltering {
                data_connector_name: data_connector.name,
                boolean_expression_type_name: object_boolean_expression_type.name,
                field_name: rest[0].0,
                field_type: spec_get_field_type(
                    rest[0].0,
                    object_types,
                    object_boolean_expression_type,
                )->Ok_0,
            },
        ),
{
    lemma_object_fields_split(
        data_connector,
        source_type_mappings,
        object_boolean_expression_type,
        prefix,
        rest,
        boolean_expression_types,
        object_types,
        models,
        flags,
        visiting,
    );
}

/// A relationship that targets a model without a source is rejected with the
/// sourceless-model error, whatever the data connector's capabilities and
/// whatever else the schema holds.
pub proof fn lemma_sourceless_model_fails(
    data_connector: DataConnectorLink,
    source_type_mappings: Seq<(String, TypeMapping)>,
    object_boolean_expression_type: ResolvedObjectBooleanExpressionType,
    comparable_relationship: BooleanExpressionComparableRelationship,
    object_types: Seq<(String, ObjectTypeWithRelationships)>,
    models: Map<Seq<char>, Model>,
    underlying_object: ObjectTypeWithRelationships,
    relationship: Relationship,
    target: RelationshipModelTarget,
)
    requires
        spec_lookup(object_types, object_boolean_expression_type.object_type@) == Some(
            underlying_object,
        ),
        spec_lookup(
            underlying_object.relationship_fields@,
            comparable_relationship.relationship_name@,
        ) == Some(relationship),
        relationship.target == RelationshipTarget::Model(target),
        models.contains_key(target.model_name@),
        models[target.model_name@].source is None,
    ensures
        spec_validate_relationship(
            data_connector,
            source_type_mappings,
            object_boolean_expression_type,
            comparable_relationship,
            object_types,
            models,
        ) == Err::<(), BooleanExpressionError>(
            BooleanExpressionError::CannotUseFilterExpressionsWithoutSource {
                model: models[target.model_name@].name,
            },
        ),
{
}

/// A cross-backend relationship with a single join-key field succeeds exactly
/// when that field's operator set records an equality operator; without one it
/// fails with the missing-equality-operator error naming the field, the
/// backend and the relationship.
pub proof fn lemma_cross_backend_needs_equality(
    data_connector: DataConnectorLink,
    source_type_mappings: Seq<(String, TypeMapping)>,
    object_boolean_expression_type: ResolvedObjectBooleanExpressionType,
    comparable_relationship: BooleanExpressionComparableRelationship,
    object_types: Seq<(String, ObjectTypeWithRelationships)>,
    models: Map<Seq<char>, Model>,
    underlying_object: ObjectTypeWithRelationships,
    relationship: Relationship,
    target: RelationshipModelTarget,
    target_model_source: ModelSource,
    type_mapping: TypeMapping,
    field_mapping: FieldMapping,
)
    requires
        spec_lookup(object_types, object_boolean_expression_type.object_type@) == Some(
            underlying_object,
        ),
        spec_lookup(
            underlying_object.relationship_fields@,
            comparable_relationship.relationship_name@,
        ) == Some(relationship),
        relationship.target == RelationshipTarget::Model(target),
        models.contains_key(target.model_name@),
        models[target.model_name@].source == Some(target_model_source),
        target_model_source.data_connector_name@ != data_connector.name@,
        spec_lookup(source_type_mappings, object_boolean_expression_type.object_type@) == Some(
            type_mapping,
        ),
        target.mappings@.len() == 1,
        spec_lookup(type_mapping.field_mappings@, target.mappings@[0].source_field@) == Some(
            field_mapping,
        ),
    ensures
        spec_eq_operator(field_mapping) is None ==> spec_validate_relationship(
            data_connector,
            source_type_mappings,
            object_boolean_expression_type,
            comparable_relationship,
            object_types,
            models,
        ) == Err::<(), BooleanExpressionError>(
            BooleanExpressionError::MissingEqualOperator {
                relationship_name: comparable_relationship.relationship_name,
                object_type_name: object_boolean_expression_type.object_type,
                field_name: target.mappings@[0].source_field,
                ndc_column: field_mapping.column,
                data_connector_name: data_connector.name,
            },
        ),
        spec_eq_operator(field_mapping) is Some ==> spec_validate_relationship(
            data_connector,
            source_type_mappings,
            object_boolean_expression_type,
            comparable_relationship,
            object_types,
            models,
        ) == Ok::<(), BooleanExpressionError>(()),
{
    assert(target.mappings@.drop_first() =~= Seq::<RelationshipFieldMapping>::empty());
    if spec_eq_operator(field_mapping) is Some {
        assert(spec_check_relationship_mappings(
            data_connector,
            object_boolean_expression_type,
            comparable_relationship.relationship_name,
            target.mappings@.drop_first(),
            type_mapping,
        ) == Ok::<(), BooleanExpressionError>(()));
    }
}

} // verus!

