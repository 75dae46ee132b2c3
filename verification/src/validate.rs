//! The capability checker: walks a predicate type depth-first, applying one
//! rule per field kind, recursing into nested object fields, and validating
//! relationship reachability and operator availability.
//!
//! The `spec_*` functions are the mathematical statement of the walk; each
//! executable function's contract says that it returns exactly what its spec
//! counterpart denotes. A fatal condition anywhere aborts the whole call with
//! only the error; non-fatal issues accumulate across the tree and are
//! returned only on overall success.
//!
//! Predicate types that reference each other in a cycle cannot be walked to
//! completion; the walk keeps the set of type names on the current path and
//! fails fatally on re-entry.
use vstd::prelude::*;

use crate::lookup::contains_name;
use crate::lookup::key_set;
use crate::lookup::lemma_key_set_finite;
use crate::lookup::lemma_lookup_some_in_key_set;
use crate::lookup::lookup;
use crate::lookup::spec_contains_name;
use crate::lookup::spec_lookup;
use crate::model_registry::model_entries;
use crate::model_registry::models_get;
use crate::schema::BooleanExpressionComparableRelationship;
use crate::schema::BooleanExpressionError;
use crate::schema::BooleanExpressionIssue;
use crate::schema::BooleanExpressionTypes;
use crate::schema::ComparisonExpressionInfo;
use crate::schema::DataConnectorLink;
use crate::schema::FeatureFlags;
use crate::schema::Model;
use crate::schema::ObjectComparisonExpressionInfo;
use crate::schema::ObjectComparisonKind;
use crate::schema::ObjectTypeWithRelationships;
use crate::schema::ResolvedObjectBooleanExpressionType;
use crate::schema::ResolvedScalarBooleanExpressionType;
use crate::schema::ScalarComparisonKind;
use crate::schema::TypeMapping;
use crate::schema::RelationshipFieldMapping;
use crate::schema::RelationshipTarget;
use crate::schema::spec_supports_nested_relationships_in_filtering;
use crate::schema::supports_nested_relationships_in_filtering;
use indexmap::IndexMap;

verus! {

/// How many predicate-type names of the registry are not yet on the current
/// walk path: the measure by which the recursive walk terminates.
pub open spec fn unvisited_count(
    objects: Seq<(String, ResolvedObjectBooleanExpressionType)>,
    visiting: Set<Seq<char>>,
) -> nat {
    key_set(objects).difference(visiting).len()
}

/// Putting a registry key that is not yet on the path onto it strictly shrinks
/// the measure.
pub proof fn lemma_unvisited_count_decreases(
    objects: Seq<(String, ResolvedObjectBooleanExpressionType)>,
    visiting: Set<Seq<char>>,
    name: Seq<char>,
)
    requires
        spec_lookup(objects, name) is Some,
        !visiting.contains(name),
    ensures
        unvisited_count(objects, visiting.insert(name)) < unvisited_count(objects, visiting),
{
    lemma_lookup_some_in_key_set(objects, name);
    lemma_key_set_finite(objects);
    key_set(objects).lemma_set_insert_diff_decreases(visiting, name);
}

/// The set of names a walk path holds.
pub open spec fn visiting_set(visiting: Seq<String>) -> Set<Seq<char>> {
    visiting.map_values(|s: String| s@).to_set()
}

/// Appending a name to the path inserts its characters into the path's set.
pub proof fn lemma_visiting_set_push(visiting: Seq<String>, name: String)
    ensures
        visiting_set(visiting.push(name)) == visiting_set(visiting).insert(name@),
{
    let to_view = |s: String| s@;
    let pushed = visiting.push(name).map_values(to_view);
    let plain = visiting.map_values(to_view);
    assert forall|n: Seq<char>| visiting_set(visiting.push(name)).contains(n) implies visiting_set(
        visiting,
    ).insert(name@).contains(n) by {
        let j = choose|j: int| 0 <= j < pushed.len() && pushed[j] == n;
        if j < visiting.len() {
            assert(plain[j] == n);
            assert(plain.contains(n));
        } else {
            assert(n == name@);
        }
    };
    assert forall|n: Seq<char>| visiting_set(visiting).insert(name@).contains(n)
        implies visiting_set(visiting.push(name)).contains(n) by {
        if n == name@ {
            assert(pushed[visiting.len() as int] == n);
            assert(pushed.contains(n));
        } else {
            let j = choose|j: int| 0 <= j < plain.len() && plain[j] == n;
            assert(pushed[j] == n);
            assert(pushed.contains(n));
        }
    };
    assert(visiting_set(visiting.push(name)) =~= visiting_set(visiting).insert(name@));
}

/// A name occurs in a path exactly when its characters are in the path's set.
pub proof fn lemma_contains_name_visiting_set(visiting: Seq<String>, name: Seq<char>)
    ensures
        spec_contains_name(visiting, name) <==> visiting_set(visiting).contains(name),
    decreases visiting.len(),
{
    let to_view = |s: String| s@;
    let plain = visiting.map_values(to_view);
    if visiting.len() == 0 {
        assert(!plain.contains(name));
    } else {
        lemma_contains_name_visiting_set(visiting.drop_first(), name);
        let rest = visiting.drop_first().map_values(to_view);
        if visiting[0]@ == name {
            assert(plain[0] == name);
            assert(plain.contains(name));
        } else {
            if spec_contains_name(visiting.drop_first(), name) {
                let j = choose|j: int| 0 <= j < rest.len() && rest[j] == name;
                assert(plain[j + 1] == name);
                assert(plain.contains(name));
            }
            if plain.contains(name) {
                let j = choose|j: int| 0 <= j < plain.len() && plain[j] == name;
                assert(j != 0);
                assert(rest[j - 1] == name);
                assert(rest.contains(name));
            }
        }
    }
}

/// The declared type of a field of the object type a predicate type ranges
/// over, or the fatal error when the object type or the field is missing.
pub open spec fn spec_get_field_type(
    field_name: String,
    object_types: Seq<(String, ObjectTypeWithRelationships)>,
    object_boolean_expression_type: ResolvedObjectBooleanExpressionType,
) -> Result<String, BooleanExpressionError> {
    match spec_lookup(object_types, object_boolean_expression_type.object_type@) {
        None => Err(
            BooleanExpressionError::UnknownTypeInObjectBooleanExpressionType {
                object_type_name: object_boolean_expression_type.name,
                boolean_expression_type_name: object_boolean_expression_type.name,
            },
        ),
        Some(operand_object_type) => match spec_lookup(operand_object_type.fields@, field_name@) {
            None => Err(
                BooleanExpressionError::UnknownFieldInObjectBooleanExpressionType {
                    field_name: field_name,
                    object_boolean_expression_type: object_boolean_expression_type.name,
                },
            ),
            Some(field_definition) => Ok(field_definition.field_type),
        },
    }
}

/// Whether a scalar predicate type is usable with the data connector: it must
/// carry an operator mapping keyed by the connector's name. Which operators the
/// mapping lists is out of scope.
pub open spec fn spec_validate_scalar(
    scalar_boolean_expression_type: ResolvedScalarBooleanExpressionType,
    parent_boolean_expression_type_name: String,
    data_connector: DataConnectorLink,
    field_name: String,
) -> Result<(), BooleanExpressionError> {
    if spec_contains_name(
        scalar_boolean_expression_type.data_connector_operator_mappings@,
        data_connector.name@,
    ) {
        Ok(())
    } else {
        Err(
            BooleanExpressionError::DataConnectorMappingMissingForField {
                field: field_name,
                boolean_expression_name: parent_boolean_expression_type_name,
                data_connector_name: data_connector.name,
            },
        )
    }
}

/// The equality operator of a field mapping, with either optional layer absent
/// meaning there is none.
pub open spec fn spec_eq_operator(field_mapping: crate::schema::FieldMapping) -> Option<String> {
    match field_mapping.comparison_operators {
        None => None,
        Some(operators) => operators.eq_operator,
    }
}

/// Checks every join-key field of a cross-backend relationship: each source
/// field must resolve to a backend column whose operator set has an equality
/// operator, since the join is pushed down as an equality predicate.
pub open spec fn spec_check_relationship_mappings(
    data_connector: DataConnectorLink,
    object_boolean_expression_type: ResolvedObjectBooleanExpressionType,
    relationship_name: String,
    mappings: Seq<crate::schema::RelationshipFieldMapping>,
    type_mapping: TypeMapping,
) -> Result<(), BooleanExpressionError>
    decreases mappings.len(),
{
    if mappings.len() == 0 {
        Ok(())
    } else {
        let source_field = mappings[0].source_field;
        match spec_lookup(type_mapping.field_mappings@, source_field@) {
            None => Err(
                BooleanExpressionError::UnknownFieldMapping {
                    object_type_name: object_boolean_expression_type.object_type,
                    field_name: source_field,
                    data_connector_name: data_connector.name,
                },
            ),
            Some(field_mapping) => {
                if spec_eq_operator(field_mapping) is None {
                    Err(
                        BooleanExpressionError::MissingEqualOperator {
                            relationship_name: relationship_name,
                            object_type_name: object_boolean_expression_type.object_type,
                            field_name: source_field,
                            ndc_column: field_mapping.column,
                            data_connector_name: data_connector.name,
                        },
                    )
                } else {
                    spec_check_relationship_mappings(
                        data_connector,
                        object_boolean_expression_type,
                        relationship_name,
                        mappings.drop_first(),
                        type_mapping,
                    )
                }
            },
        }
    }
}

/// Validates one comparable relationship field: the owning object type and the
/// relationship must resolve; a non-model target is not checked further; a
/// model target must resolve to a model with a source; a cross-backend target
/// additionally needs an equality operator on every join key.
pub open spec fn spec_validate_relationship(
    data_connector: DataConnectorLink,
    source_type_mappings: Seq<(String, TypeMapping)>,
    object_boolean_expression_type: ResolvedObjectBooleanExpressionType,
    comparable_relationship: BooleanExpressionComparableRelationship,
    object_types: Seq<(String, ObjectTypeWithRelationships)>,
    models: Map<Seq<char>, Model>,
) -> Result<(), BooleanExpressionError> {
    match spec_lookup(object_types, object_boolean_expression_type.object_type@) {
        None => Err(
            BooleanExpressionError::UnknownTypeInObjectBooleanExpressionType {
                object_type_name: object_boolean_expression_type.object_type,
                boolean_expression_type_name: object_boolean_expression_type.name,
            },
        ),
        Some(underlying_object) => match spec_lookup(
            underlying_object.relationship_fields@,
            comparable_relationship.relationship_name@,
        ) {
            None => Err(
                BooleanExpressionError::UnknownRelationshipInTypePredicate {
                    relationship_name: comparable_relationship.relationship_name,
                    object_type_name: object_boolean_expression_type.object_type,
                },
            ),
            Some(relationship) => match relationship.target {
                crate::schema::RelationshipTarget::Other => Ok(()),
                crate::schema::RelationshipTarget::Model(relationship_target_model) => {
                    if !models.contains_key(relationship_target_model.model_name@) {
                        Err(
                            BooleanExpressionError::UnknownModelUsedInRelationshipTypePredicate {
                                object_type_name: object_boolean_expression_type.object_type,
                                target_model_name: relationship_target_model.model_name,
                                relationship_name: comparable_relationship.relationship_name,
                            },
                        )
                    } else {
                        let target_model = models[relationship_target_model.model_name@];
                        match target_model.source {
                            None => Err(
                                BooleanExpressionError::CannotUseFilterExpressionsWithoutSource {
                                    model: target_model.name,
                                },
                            ),
                            Some(target_model_source) => {
                                if target_model_source.data_connector_name@
                                    == data_connector.name@ {
                                    Ok(())
                                } else {
                                    match spec_lookup(
                                        source_type_mappings,
                                        object_boolean_expression_type.object_type@,
                                    ) {
                                        None => Err(
                                            BooleanExpressionError::UnknownTypeMapping {
                                                object_type_name:
                                                    object_boolean_expression_type.object_type,
                                                data_connector_name: data_connector.name,
                                            },
                                        ),
                                        Some(type_mapping) => spec_check_relationship_mappings(
                                            data_connector,
                                            object_boolean_expression_type,
                                            comparable_relationship.relationship_name,
                                            relationship_target_model.mappings@,
                                            type_mapping,
                                        ),
                                    }
                                }
                            },
                        }
                    }
                },
            },
        },
    }
}

/// Validates the relationship fields of a predicate type in order; the first
/// fatal condition wins.
pub open spec fn spec_check_relationship_fields(
    data_connector: DataConnectorLink,
    source_type_mappings: Seq<(String, TypeMapping)>,
    object_boolean_expression_type: ResolvedObjectBooleanExpressionType,
    relationship_fields: Seq<(String, BooleanExpressionComparableRelationship)>,
    object_types: Seq<(String, ObjectTypeWithRelationships)>,
    models: Map<Seq<char>, Model>,
) -> Result<(), BooleanExpressionError>
    decreases relationship_fields.len(),
{
    if relationship_fields.len() == 0 {
        Ok(())
    } else {
        match spec_validate_relationship(
            data_connector,
            source_type_mappings,
            object_boolean_expression_type,
            relationship_fields[0].1,
            object_types,
            models,
        ) {
            Err(e) => Err(e),
            Ok(()) => spec_check_relationship_fields(
                data_connector,
                source_type_mappings,
                object_boolean_expression_type,
                relationship_fields.drop_first(),
                object_types,
                models,
            ),
        }
    }
}

/// Validates the scalar fields of a predicate type in order: each scalar
/// predicate type must resolve; a scalar-array field on a connector without
/// nested scalar-array filtering records a non-fatal issue; the scalar must
/// carry a mapping for the connector.
pub open spec fn spec_check_scalar_fields(
    data_connector: DataConnectorLink,
    object_boolean_expression_type: ResolvedObjectBooleanExpressionType,
    scalar_fields: Seq<(String, ComparisonExpressionInfo)>,
    scalars: Seq<(String, ResolvedScalarBooleanExpressionType)>,
    object_types: Seq<(String, ObjectTypeWithRelationships)>,
) -> Result<Seq<BooleanExpressionIssue>, BooleanExpressionError>
    decreases scalar_fields.len(),
{
    if scalar_fields.len() == 0 {
        Ok(Seq::empty())
    } else {
        let field_name = scalar_fields[0].0;
        let info = scalar_fields[0].1;
        match spec_lookup(scalars, info.boolean_expression_type_name@) {
            None => Err(
                BooleanExpressionError::ScalarBooleanExpressionCouldNotBeFound {
                    parent_boolean_expression: object_boolean_expression_type.name,
                    child_boolean_expression: info.boolean_expression_type_name,
                },
            ),
            Some(leaf_boolean_expression) => {
                let head: Result<Seq<BooleanExpressionIssue>, BooleanExpressionError> = match info
                    .field_kind {
                    ScalarComparisonKind::ScalarArray => {
                        if !data_connector.capabilities.supports_nested_scalar_array_filtering {
                            match spec_get_field_type(
                                field_name,
                                object_types,
                                object_boolean_expression_type,
                            ) {
                                Err(e) => Err(e),
                                Ok(field_type) => Ok(
                                    seq![
                                        BooleanExpressionIssue::DataConnectorDoesNotSupportNestedScalarArrayFiltering {
                                            data_connector_name: data_connector.name,
                                            boolean_expression_type_name:
                                                object_boolean_expression_type.name,
                                            field_name: field_name,
                                            field_type: field_type,
                                        },
                                    ],
                                ),
                            }
                        } else {
                            Ok(Seq::empty())
                        }
                    },
                    ScalarComparisonKind::Scalar => Ok(Seq::empty()),
                };
                match head {
                    Err(e) => Err(e),
                    Ok(head_issues) => match spec_validate_scalar(
                        leaf_boolean_expression,
                        object_boolean_expression_type.name,
                        data_connector,
                        field_name,
                    ) {
                        Err(e) => Err(e),
                        Ok(()) => match spec_check_scalar_fields(
                            data_connector,
                            object_boolean_expression_type,
                            scalar_fields.drop_first(),
                            scalars,
                            object_types,
                        ) {
                            Err(e) => Err(e),
                            Ok(rest) => Ok(head_issues + rest),
                        },
                    },
                }
            },
        }
    }
}

/// Validates the object fields of a predicate type in order. Each child
/// predicate type must resolve; an object field on a connector without nested
/// object filtering is fatal, an object-array field without nested object-array
/// filtering records an issue; a connector without nested relationships in
/// filtering must not see relationship comparisons inside the child; then the
/// walk recurses into the child with its name put on the path.
pub open spec fn spec_check_object_fields(
    data_connector: DataConnectorLink,
    source_type_mappings: Seq<(String, TypeMapping)>,
    object_boolean_expression_type: ResolvedObjectBooleanExpressionType,
    object_fields: Seq<(String, ObjectComparisonExpressionInfo)>,
    boolean_expression_types: BooleanExpressionTypes,
    object_types: Seq<(String, ObjectTypeWithRelationships)>,
    models: Map<Seq<char>, Model>,
    flags: FeatureFlags,
    visiting: Set<Seq<char>>,
) -> Result<Seq<BooleanExpressionIssue>, BooleanExpressionError>
    decreases unvisited_count(boolean_expression_types.objects@, visiting), 0int,
        object_fields.len(),
{
    if object_fields.len() == 0 {
        Ok(Seq::empty())
    } else {
        let field_name = object_fields[0].0;
        let info = object_fields[0].1;
        match spec_lookup(boolean_expression_types.objects@, info.boolean_expression_type_name@) {
            None => Err(
                BooleanExpressionError::BooleanExpressionCouldNotBeFound {
                    parent_boolean_expression: object_boolean_expression_type.name,
                    child_boolean_expression: info.boolean_expression_type_name,
                },
            ),
            Some(leaf_boolean_expression) => {
                let head: Result<Seq<BooleanExpressionIssue>, BooleanExpressionError> = match info
                    .field_kind {
                    ObjectComparisonKind::Object => {
                        if !data_connector.capabilities.supports_nested_object_filtering {
                            match spec_get_field_type(
                                field_name,
                                object_types,
                                object_boolean_expression_type,
                            ) {
                                Err(e) => Err(e),
                                Ok(field_type) => Err(
                                    BooleanExpressionError::DataConnectorDoesNotSupportNestedObjectFiltering {
                                        data_connector_name: data_connector.name,
                                        boolean_expression_type_name:
                                            object_boolean_expression_type.name,
                                        field_name: field_name,
                                        field_type: field_type,
                                    },
                                ),
                            }
                        } else {
                            Ok(Seq::empty())
                        }
                    },
                    ObjectComparisonKind::ObjectArray => {
                        if !data_connector.capabilities.supports_nested_object_array_filtering {
                            match spec_get_field_type(
                                field_name,
                                object_types,
                                object_boolean_expression_type,
                            ) {
                                Err(e) => Err(e),
                                Ok(field_type) => Ok(
                                    seq![
                                        BooleanExpressionIssue::DataConnectorDoesNotSupportNestedObjectArrayFiltering {
                                            data_connector_name: data_connector.name,
                                            boolean_expression_type_name:
                                                object_boolean_expression_type.name,
                                            field_name: field_name,
                                            field_type: field_type,
                                        },
                                    ],
                                ),
                            }
                        } else {
                            Ok(Seq::empty())
                        }
                    },
                };
                match head {
                    Err(e) => Err(e),
                    Ok(head_issues) => {
                        if !spec_supports_nested_relationships_in_filtering(
                            data_connector.capabilities,
                        ) && leaf_boolean_expression.fields.relationship_fields@.len() > 0 {
                            Err(
                                BooleanExpressionError::DataConnectorDoesNotSupportNestedRelationshipFiltering {
                                    data_connector_name: data_connector.name,
                                    parent_boolean_expression_type_name:
                                        object_boolean_expression_type.name,
                                    field_name: field_name,
                                    nested_boolean_expression_type_name:
                                        info.boolean_expression_type_name,
                                },
                            )
                        } else if visiting.contains(info.boolean_expression_type_name@) {
                            Err(
                                BooleanExpressionError::RecursiveBooleanExpression {
                                    boolean_expression_type_name: info.boolean_expression_type_name,
                                },
                            )
                        } else {
                            let child = ({
                                proof {
                                    lemma_unvisited_count_decreases(
                                        boolean_expression_types.objects@,
                                        visiting,
                                        info.boolean_expression_type_name@,
                                    );
                                }
                                spec_validate(
                                    data_connector,
                                    source_type_mappings,
                                    leaf_boolean_expression,
                                    boolean_expression_types,
                                    object_types,
                                    models,
                                    flags,
                                    visiting.insert(info.boolean_expression_type_name@),
                                )
                            });
                            match child {
                                Err(e) => Err(e),
                                Ok(child_issues) => match spec_check_object_fields(
                                    data_connector,
                                    source_type_mappings,
                                    object_boolean_expression_type,
                                    object_fields.drop_first(),
                                    boolean_expression_types,
                                    object_types,
                                    models,
                                    flags,
                                    visiting,
                                ) {
                                    Err(e) => Err(e),
                                    Ok(rest) => Ok(head_issues + child_issues + rest),
                                },
                            }
                        }
                    },
                }
            },
        }
    }
}

/// What validating a predicate type against a data connector returns: the
/// issues of the whole subtree in walk order on success, or the first fatal
/// error. A predicate type that carries no field set for the active feature
/// flags succeeds trivially.
pub open spec fn spec_validate(
    data_connector: DataConnectorLink,
    source_type_mappings: Seq<(String, TypeMapping)>,
    object_boolean_expression_type: ResolvedObjectBooleanExpressionType,
    boolean_expression_types: BooleanExpressionTypes,
    object_types: Seq<(String, ObjectTypeWithRelationships)>,
    models: Map<Seq<char>, Model>,
    flags: FeatureFlags,
    visiting: Set<Seq<char>>,
) -> Result<Seq<BooleanExpressionIssue>, BooleanExpressionError>
    decreases unvisited_count(boolean_expression_types.objects@, visiting), 1int, 0int,
{
    match object_boolean_expression_type.spec_get_fields(flags) {
        None => Ok(Seq::empty()),
        Some(fields) => {
            match spec_check_object_fields(
                data_connector,
                source_type_mappings,
                object_boolean_expression_type,
                fields.object_fields@,
                boolean_expression_types,
                object_types,
                models,
                flags,
                visiting,
            ) {
                Err(e) => Err(e),
                Ok(object_issues) => match spec_check_scalar_fields(
                    data_connector,
                    object_boolean_expression_type,
                    fields.scalar_fields@,
                    boolean_expression_types.scalars@,
                    object_types,
                ) {
                    Err(e) => Err(e),
                    Ok(scalar_issues) => match spec_check_relationship_fields(
                        data_connector,
                        source_type_mappings,
                        object_boolean_expression_type,
                        fields.relationship_fields@,
                        object_types,
                        models,
                    ) {
                        Err(e) => Err(e),
                        Ok(()) => Ok(object_issues + scalar_issues),
                    },
                },
            }
        },
    }
}

/// Whether an executable result and the mathematical one agree: same error, or
/// same issues in the same order.
pub open spec fn issues_match(
    r: Result<Vec<BooleanExpressionIssue>, BooleanExpressionError>,
    s: Result<Seq<BooleanExpressionIssue>, BooleanExpressionError>,
) -> bool {
    match r {
        Ok(issues) => s == Ok::<Seq<BooleanExpressionIssue>, BooleanExpressionError>(issues@),
        Err(e) => s == Err::<Seq<BooleanExpressionIssue>, BooleanExpressionError>(e),
    }
}

/// Resolves the declared type of a field on the object type the predicate type
/// ranges over.
pub fn get_field_type(
    field_name: &String,
    object_types: &Vec<(String, ObjectTypeWithRelationships)>,
    object_boolean_expression_type: &ResolvedObjectBooleanExpressionType,
) -> (r: Result<String, BooleanExpressionError>)
    ensures
        r == spec_get_field_type(*field_name, object_types@, *object_boolean_expression_type),
{
    let operand_object_type = match lookup(
        object_types,
        &object_boolean_expression_type.object_type,
    ) {
        None => {
            return Err(
                BooleanExpressionError::UnknownTypeInObjectBooleanExpressionType {
                    object_type_name: object_boolean_expression_type.name.clone(),
                    boolean_expression_type_name: object_boolean_expression_type.name.clone(),
                },
            );
        },
        Some(operand_object_type) => operand_object_type,
    };
    match lookup(&operand_object_type.fields, field_name) {
        None => Err(
            BooleanExpressionError::UnknownFieldInObjectBooleanExpressionType {
                field_name: field_name.clone(),
                object_boolean_expression_type: object_boolean_expression_type.name.clone(),
            },
        ),
        Some(field_definition) => Ok(field_definition.field_type.clone()),
    }
}

/// Checks that a scalar predicate type carries operator mappings for the data
/// connector in use: fails exactly when the connector's name is absent.
pub fn validate_data_connector_with_scalar_boolean_expression_type(
    scalar_boolean_expression_type: &ResolvedScalarBooleanExpressionType,
    parent_boolean_expression_type_name: &String,
    data_connector: &DataConnectorLink,
    field_name: &String,
) -> (r: Result<(), BooleanExpressionError>)
    ensures
        r == spec_validate_scalar(
            *scalar_boolean_expression_type,
            *parent_boolean_expression_type_name,
            *data_connector,
            *field_name,
        ),
{
    if contains_name(
        &scalar_boolean_expression_type.data_connector_operator_mappings,
        &data_connector.name,
    ) {
        Ok(())
    } else {
        Err(
            BooleanExpressionError::DataConnectorMappingMissingForField {
                field: field_name.clone(),
                boolean_expression_name: parent_boolean_expression_type_name.clone(),
                data_connector_name: data_connector.name.clone(),
            },
        )
    }
}

/// Checks the join-key fields of a cross-backend relationship from `index` on.
fn check_relationship_mappings_from(
    data_connector: &DataConnectorLink,
    object_boolean_expression_type: &ResolvedObjectBooleanExpressionType,
    relationship_name: &String,
    mappings: &Vec<RelationshipFieldMapping>,
    index: usize,
    type_mapping: &TypeMapping,
) -> (r: Result<(), BooleanExpressionError>)
    requires
        index <= mappings.len(),
    ensures
        r == spec_check_relationship_mappings(
            *data_connector,
            *object_boolean_expression_type,
            *relationship_name,
            mappings@.skip(index as int),
            *type_mapping,
        ),
    decreases mappings.len() - index,
{
    if index == mappings.len() {
        proof {
            assert(mappings@.skip(index as int) =~= Seq::<RelationshipFieldMapping>::empty());
        }
        return Ok(());
    }
    proof {
        assert(mappings@.skip(index as int)[0] == mappings@[index as int]);
        assert(mappings@.skip(index as int).drop_first() =~= mappings@.skip(index as int + 1));
    }
    let source_field = &mappings[index].source_field;
    let field_mapping = match lookup(&type_mapping.field_mappings, source_field) {
        None => {
            return Err(
                BooleanExpressionError::UnknownFieldMapping {
                    object_type_name: object_boolean_expression_type.object_type.clone(),
                    field_name: source_field.clone(),
                    data_connector_name: data_connector.name.clone(),
                },
            );
        },
        Some(field_mapping) => field_mapping,
    };
    let has_eq_operator = match &field_mapping.comparison_operators {
        None => false,
        Some(operators) => operators.eq_operator.is_some(),
    };
    if !has_eq_operator {
        return Err(
            BooleanExpressionError::MissingEqualOperator {
                relationship_name: relationship_name.clone(),
                object_type_name: object_boolean_expression_type.object_type.clone(),
                field_name: source_field.clone(),
                ndc_column: field_mapping.column.clone(),
                data_connector_name: data_connector.name.clone(),
            },
        );
    }
    check_relationship_mappings_from(
        data_connector,
        object_boolean_expression_type,
        relationship_name,
        mappings,
        index + 1,
        type_mapping,
    )
}

/// Validates one comparable relationship field against the data connector: the
/// target model must exist and have a source, and a cross-backend target needs
/// an equality operator on every join key.
pub fn validate_data_connector_with_comparable_relationship(
    data_connector: &DataConnectorLink,
    source_type_mappings: &Vec<(String, TypeMapping)>,
    object_boolean_expression_type: &ResolvedObjectBooleanExpressionType,
    comparable_relationship: &BooleanExpressionComparableRelationship,
    object_types: &Vec<(String, ObjectTypeWithRelationships)>,
    models: &IndexMap<String, Model>,
) -> (r: Result<(), BooleanExpressionError>)
    ensures
        r == spec_validate_relationship(
            *data_connector,
            source_type_mappings@,
            *object_boolean_expression_type,
            *comparable_relationship,
            object_types@,
            model_entries(*models),
        ),
{
    let underlying_object = match lookup(
        object_types,
        &object_boolean_expression_type.object_type,
    ) {
        None => {
            return Err(
                BooleanExpressionError::UnknownTypeInObjectBooleanExpressionType {
                    object_type_name: object_boolean_expression_type.object_type.clone(),
                    boolean_expression_type_name: object_boolean_expression_type.name.clone(),
                },
            );
        },
        Some(underlying_object) => underlying_object,
    };
    let relationship = match lookup(
        &underlying_object.relationship_fields,
        &comparable_relationship.relationship_name,
    ) {
        None => {
            return Err(
                BooleanExpressionError::UnknownRelationshipInTypePredicate {
                    relationship_name: comparable_relationship.relationship_name.clone(),
                    object_type_name: object_boolean_expression_type.object_type.clone(),
                },
            );
        },
        Some(relationship) => relationship,
    };
    let relationship_target_model = match &relationship.target {
        RelationshipTarget::Other => {
            return Ok(());
        },
        RelationshipTarget::Model(relationship_target_model) => relationship_target_model,
    };
    let target_model = match models_get(models, &relationship_target_model.model_name) {
        None => {
            return Err(
                BooleanExpressionError::UnknownModelUsedInRelationshipTypePredicate {
                    object_type_name: object_boolean_expression_type.object_type.clone(),
                    target_model_name: relationship_target_model.model_name.clone(),
                    relationship_name: comparable_relationship.relationship_name.clone(),
                },
            );
        },
        Some(target_model) => target_model,
    };
    let target_model_source = match &target_model.source {
        None => {
            return Err(
                BooleanExpressionError::CannotUseFilterExpressionsWithoutSource {
                    model: target_model.name.clone(),
                },
            );
        },
        Some(target_model_source) => target_model_source,
    };
    if target_model_source.data_connector_name == data_connector.name {
        return Ok(());
    }
    let type_mapping = match lookup(
        source_type_mappings,
        &object_boolean_expression_type.object_type,
    ) {
        None => {
            return Err(
                BooleanExpressionError::UnknownTypeMapping {
                    object_type_name: object_boolean_expression_type.object_type.clone(),
                    data_connector_name: data_connector.name.clone(),
                },
            );
        },
        Some(type_mapping) => type_mapping,
    };
    proof {
        assert(relationship_target_model.mappings@.skip(0)
            =~= relationship_target_model.mappings@);
    }
    check_relationship_mappings_from(
        data_connector,
        object_boolean_expression_type,
        &comparable_relationship.relationship_name,
        &relationship_target_model.mappings,
        0,
        type_mapping,
    )
}

/// Validates the relationship fields of a predicate type from `index` on.
fn check_relationship_fields_from(
    data_connector: &DataConnectorLink,
    source_type_mappings: &Vec<(String, TypeMapping)>,
    object_boolean_expression_type: &ResolvedObjectBooleanExpressionType,
    relationship_fields: &Vec<(String, BooleanExpressionComparableRelationship)>,
    index: usize,
    object_types: &Vec<(String, ObjectTypeWithRelationships)>,
    models: &IndexMap<String, Model>,
) -> (r: Result<(), BooleanExpressionError>)
    requires
        index <= relationship_fields.len(),
    ensures
        r == spec_check_relationship_fields(
            *data_connector,
            source_type_mappings@,
            *object_boolean_expression_type,
            relationship_fields@.skip(index as int),
            object_types@,
            model_entries(*models),
        ),
    decreases relationship_fields.len() - index,
{
    if index == relationship_fields.len() {
        proof {
            assert(relationship_fields@.skip(index as int) =~= Seq::<
                (String, BooleanExpressionComparableRelationship),
            >::empty());
        }
        return Ok(());
    }
    proof {
        assert(relationship_fields@.skip(index as int)[0] == relationship_fields@[index as int]);
        assert(relationship_fields@.skip(index as int).drop_first() =~= relationship_fields@.skip(
            index as int + 1,
        ));
    }
    match validate_data_connector_with_comparable_relationship(
        data_connector,
        source_type_mappings,
        object_boolean_expression_type,
        &relationship_fields[index].1,
        object_types,
        models,
    ) {
        Err(e) => Err(e),
        Ok(()) => check_relationship_fields_from(
            data_connector,
            source_type_mappings,
            object_boolean_expression_type,
            relationship_fields,
            index + 1,
            object_types,
            models,
        ),
    }
}

/// Validates the scalar fields of a predicate type from `index` on.
fn check_scalar_fields_from(
    data_connector: &DataConnectorLink,
    object_boolean_expression_type: &ResolvedObjectBooleanExpressionType,
    scalar_fields: &Vec<(String, ComparisonExpressionInfo)>,
    index: usize,
    scalars: &Vec<(String, ResolvedScalarBooleanExpressionType)>,
    object_types: &Vec<(String, ObjectTypeWithRelationships)>,
) -> (r: Result<Vec<BooleanExpressionIssue>, BooleanExpressionError>)
    requires
        index <= scalar_fields.len(),
    ensures
        issues_match(
            r,
            spec_check_scalar_fields(
                *data_connector,
                *object_boolean_expression_type,
                scalar_fields@.skip(index as int),
                scalars@,
                object_types@,
            ),
        ),
    decreases scalar_fields.len() - index,
{
    if index == scalar_fields.len() {
        proof {
            assert(scalar_fields@.skip(index as int) =~= Seq::<
                (String, ComparisonExpressionInfo),
            >::empty());
        }
        return Ok(Vec::new());
    }
    proof {
        assert(scalar_fields@.skip(index as int)[0] == scalar_fields@[index as int]);
        assert(scalar_fields@.skip(index as int).drop_first() =~= scalar_fields@.skip(
            index as int + 1,
        ));
    }
    let field_name = &scalar_fields[index].0;
    let info = &scalar_fields[index].1;
    let leaf_boolean_expression = match lookup(scalars, &info.boolean_expression_type_name) {
        None => {
            return Err(
                BooleanExpressionError::ScalarBooleanExpressionCouldNotBeFound {
                    parent_boolean_expression: object_boolean_expression_type.name.clone(),
                    child_boolean_expression: info.boolean_expression_type_name.clone(),
                },
            );
        },
        Some(leaf_boolean_expression) => leaf_boolean_expression,
    };
    let mut head_issues: Vec<BooleanExpressionIssue> = Vec::new();
    match info.field_kind {
        ScalarComparisonKind::ScalarArray => {
            if !data_connector.capabilities.supports_nested_scalar_array_filtering {
                match get_field_type(field_name, object_types, object_boolean_expression_type) {
                    Err(e) => {
                        return Err(e);
                    },
                    Ok(field_type) => {
                        head_issues.push(
                            BooleanExpressionIssue::DataConnectorDoesNotSupportNestedScalarArrayFiltering {
                                data_connector_name: data_connector.name.clone(),
                                boolean_expression_type_name:
                                    object_boolean_expression_type.name.clone(),
                                field_name: field_name.clone(),
                                field_type,
                            },
                        );
                    },
                }
            }
        },
        ScalarComparisonKind::Scalar => {},
    }
    match validate_data_connector_with_scalar_boolean_expression_type(
        leaf_boolean_expression,
        &object_boolean_expression_type.name,
        data_connector,
        field_name,
    ) {
        Err(e) => {
            return Err(e);
        },
        Ok(()) => {},
    }
    let mut rest = match check_scalar_fields_from(
        data_connector,
        object_boolean_expression_type,
        scalar_fields,
        index + 1,
        scalars,
        object_types,
    ) {
        Err(e) => {
            return Err(e);
        },
        Ok(rest) => rest,
    };
    head_issues.append(&mut rest);
    Ok(head_issues)
}

/// Validates the object fields of a predicate type from `index` on, recursing
/// into each child predicate type; `visiting` is the walk path and is left as
/// it was found.
fn check_object_fields_from(
    data_connector: &DataConnectorLink,
    source_type_mappings: &Vec<(String, TypeMapping)>,
    object_boolean_expression_type: &ResolvedObjectBooleanExpressionType,
    object_fields: &Vec<(String, ObjectComparisonExpressionInfo)>,
    index: usize,
    boolean_expression_types: &BooleanExpressionTypes,
    object_types: &Vec<(String, ObjectTypeWithRelationships)>,
    models: &IndexMap<String, Model>,
    flags: &FeatureFlags,
    visiting: &mut Vec<String>,
) -> (r: Result<Vec<BooleanExpressionIssue>, BooleanExpressionError>)
    requires
        index <= object_fields.len(),
    ensures
        final(visiting)@ == old(visiting)@,
        issues_match(
            r,
            spec_check_object_fields(
                *data_connector,
                source_type_mappings@,
                *object_boolean_expression_type,
                object_fields@.skip(index as int),
                *boolean_expression_types,
                object_types@,
                model_entries(*models),
                *flags,
                visiting_set(old(visiting)@),
            ),
        ),
    decreases unvisited_count(
        boolean_expression_types.objects@,
        visiting_set(old(visiting)@),
    ), 0int, object_fields.len() - index,
{
    if index == object_fields.len() {
        proof {
            assert(object_fields@.skip(index as int) =~= Seq::<
                (String, ObjectComparisonExpressionInfo),
            >::empty());
        }
        return Ok(Vec::new());
    }
    proof {
        assert(object_fields@.skip(index as int)[0] == object_fields@[index as int]);
        assert(object_fields@.skip(index as int).drop_first() =~= object_fields@.skip(
            index as int + 1,
        ));
    }
    let field_name = &object_fields[index].0;
    let info = &object_fields[index].1;
    let leaf_boolean_expression = match lookup(
        &boolean_expression_types.objects,
        &info.boolean_expression_type_name,
    ) {
        None => {
            return Err(
                BooleanExpressionError::BooleanExpressionCouldNotBeFound {
                    parent_boolean_expression: object_boolean_expression_type.name.clone(),
                    child_boolean_expression: info.boolean_expression_type_name.clone(),
                },
            );
        },
        Some(leaf_boolean_expression) => leaf_boolean_expression,
    };
    let mut head_issues: Vec<BooleanExpressionIssue> = Vec::new();
    match info.field_kind {
        ObjectComparisonKind::Object => {
            if !data_connector.capabilities.supports_nested_object_filtering {
                match get_field_type(field_name, object_types, object_boolean_expression_type) {
                    Err(e) => {
                        return Err(e);
                    },
                    Ok(field_type) => {
                        return Err(
                            BooleanExpressionError::DataConnectorDoesNotSupportNestedObjectFiltering {
                                data_connector_name: data_connector.name.clone(),
                                boolean_expression_type_name:
                                    object_boolean_expression_type.name.clone(),
                                field_name: field_name.clone(),
                                field_type,
                            },
                        );
                    },
                }
            }
        },
        ObjectComparisonKind::ObjectArray => {
            if !data_connector.capabilities.supports_nested_object_array_filtering {
                match get_field_type(field_name, object_types, object_boolean_expression_type) {
                    Err(e) => {
                        return Err(e);
                    },
                    Ok(field_type) => {
                        head_issues.push(
                            BooleanExpressionIssue::DataConnectorDoesNotSupportNestedObjectArrayFiltering {
                                data_connector_name: data_connector.name.clone(),
                                boolean_expression_type_name:
                                    object_boolean_expression_type.name.clone(),
                                field_name: field_name.clone(),
                                field_type,
                            },
                        );
                    },
                }
            }
        },
    }
    if !supports_nested_relationships_in_filtering(&data_connector.capabilities)
        && leaf_boolean_expression.fields.relationship_fields.len() > 0 {
        return Err(
            BooleanExpressionError::DataConnectorDoesNotSupportNestedRelationshipFiltering {
                data_connector_name: data_connector.name.clone(),
                parent_boolean_expression_type_name: object_boolean_expression_type.name.clone(),
                field_name: field_name.clone(),
                nested_boolean_expression_type_name: info.boolean_expression_type_name.clone(),
            },
        );
    }
    proof {
        lemma_contains_name_visiting_set(visiting@, info.boolean_expression_type_name@);
    }
    if contains_name(&*visiting, &info.boolean_expression_type_name) {
        return Err(
            BooleanExpressionError::RecursiveBooleanExpression {
                boolean_expression_type_name: info.boolean_expression_type_name.clone(),
            },
        );
    }
    proof {
        lemma_visiting_set_push(visiting@, info.boolean_expression_type_name);
        lemma_unvisited_count_decreases(
            boolean_expression_types.objects@,
            visiting_set(visiting@),
            info.boolean_expression_type_name@,
        );
    }
    visiting.push(info.boolean_expression_type_name.clone());
    let child_result = validate_data_connector_with_object_boolean_expression_type_inner(
        data_connector,
        source_type_mappings,
        leaf_boolean_expression,
        boolean_expression_types,
        object_types,
        models,
        flags,
        visiting,
    );
    let _revisited_name = visiting.pop();
    proof {
        assert(visiting@ =~= old(visiting)@);
    }
    let mut child_issues = match child_result {
        Err(e) => {
            return Err(e);
        },
        Ok(child_issues) => child_issues,
    };
    let mut rest = match check_object_fields_from(
        data_connector,
        source_type_mappings,
        object_boolean_expression_type,
        object_fields,
        index + 1,
        boolean_expression_types,
        object_types,
        models,
        flags,
        visiting,
    ) {
        Err(e) => {
            return Err(e);
        },
        Ok(rest) => rest,
    };
    head_issues.append(&mut child_issues);
    head_issues.append(&mut rest);
    Ok(head_issues)
}

/// One step of the walk: validates a predicate type with the given walk path,
/// which is left as it was found.
fn validate_data_connector_with_object_boolean_expression_type_inner(
    data_connector: &DataConnectorLink,
    source_type_mappings: &Vec<(String, TypeMapping)>,
    object_boolean_expression_type: &ResolvedObjectBooleanExpressionType,
    boolean_expression_types: &BooleanExpressionTypes,
    object_types: &Vec<(String, ObjectTypeWithRelationships)>,
    models: &IndexMap<String, Model>,
    flags: &FeatureFlags,
    visiting: &mut Vec<String>,
) -> (r: Result<Vec<BooleanExpressionIssue>, BooleanExpressionError>)
    ensures
        final(visiting)@ == old(visiting)@,
        issues_match(
            r,
            spec_validate(
                *data_connector,
                source_type_mappings@,
                *object_boolean_expression_type,
                *boolean_expression_types,
                object_types@,
                model_entries(*models),
                *flags,
                visiting_set(old(visiting)@),
            ),
        ),
    decreases unvisited_count(
        boolean_expression_types.objects@,
        visiting_set(old(visiting)@),
    ), 1int, 0int,
{
    let fields = match object_boolean_expression_type.get_fields(flags) {
        None => {
            return Ok(Vec::new());
        },
        Some(fields) => fields,
    };
    proof {
        assert(fields.object_fields@.skip(0) =~= fields.object_fields@);
        assert(fields.scalar_fields@.skip(0) =~= fields.scalar_fields@);
        assert(fields.relationship_fields@.skip(0) =~= fields.relationship_fields@);
    }
    let mut object_issues = match check_object_fields_from(
        data_connector,
        source_type_mappings,
        object_boolean_expression_type,
        &fields.object_fields,
        0,
        boolean_expression_types,
        object_types,
        models,
        flags,
        visiting,
    ) {
        Err(e) => {
            return Err(e);
        },
        Ok(object_issues) => object_issues,
    };
    let mut scalar_issues = match check_scalar_fields_from(
        data_connector,
        object_boolean_expression_type,
        &fields.scalar_fields,
        0,
        &boolean_expression_types.scalars,
        object_types,
    ) {
        Err(e) => {
            return Err(e);
        },
        Ok(scalar_issues) => scalar_issues,
    };
    match check_relationship_fields_from(
        data_connector,
        source_type_mappings,
        object_boolean_expression_type,
        &fields.relationship_fields,
        0,
        object_types,
        models,
    ) {
        Err(e) => {
            return Err(e);
        },
        Ok(()) => {},
    }
    object_issues.append(&mut scalar_issues);
    Ok(object_issues)
}

/// Validates a whole predicate type against a data connector: does every scalar
/// carry mappings for it, does it support the nesting the object fields use,
/// and can every comparable relationship be executed? Returns the accumulated
/// non-fatal issues of the whole tree, or the first fatal error.
pub fn validate_data_connector_with_object_boolean_expression_type(
    data_connector: &DataConnectorLink,
    source_type_mappings: &Vec<(String, TypeMapping)>,
    object_boolean_expression_type: &ResolvedObjectBooleanExpressionType,
    boolean_expression_types: &BooleanExpressionTypes,
    object_types: &Vec<(String, ObjectTypeWithRelationships)>,
    models: &IndexMap<String, Model>,
    flags: &FeatureFlags,
) -> (r: Result<Vec<BooleanExpressionIssue>, BooleanExpressionError>)
    ensures
        issues_match(
            r,
            spec_validate(
                *data_connector,
                source_type_mappings@,
                *object_boolean_expression_type,
                *boolean_expression_types,
                object_types@,
                model_entries(*models),
                *flags,
                Set::empty(),
            ),
        ),
{
    let mut visiting: Vec<String> = Vec::new();
    proof {
        assert(visiting_set(visiting@) =~= Set::<Seq<char>>::empty());
    }
    validate_data_connector_with_object_boolean_expression_type_inner(
        data_connector,
        source_type_mappings,
        object_boolean_expression_type,
        boolean_expression_types,
        object_types,
        models,
        flags,
        &mut visiting,
    )
}

} // verus!
