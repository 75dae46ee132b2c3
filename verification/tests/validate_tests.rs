use capability_check::schema::BooleanExpressionComparableRelationship;
use capability_check::schema::BooleanExpressionError;
use capability_check::schema::BooleanExpressionFields;
use capability_check::schema::BooleanExpressionIssue;
use capability_check::schema::BooleanExpressionTypes;
use capability_check::schema::ComparisonExpressionInfo;
use capability_check::schema::ComparisonOperators;
use capability_check::schema::DataConnectorCapabilities;
use capability_check::schema::DataConnectorLink;
use capability_check::schema::FeatureFlags;
use capability_check::schema::FieldDefinition;
use capability_check::schema::FieldMapping;
use capability_check::schema::Model;
use capability_check::schema::ModelSource;
use capability_check::schema::NestedRelationshipCapabilities;
use capability_check::schema::ObjectComparisonExpressionInfo;
use capability_check::schema::ObjectComparisonKind;
use capability_check::schema::ObjectTypeWithRelationships;
use capability_check::schema::Relationship;
use capability_check::schema::RelationshipCapabilities;
use capability_check::schema::RelationshipFieldMapping;
use capability_check::schema::RelationshipModelTarget;
use capability_check::schema::RelationshipTarget;
use capability_check::schema::ResolvedObjectBooleanExpressionType;
use capability_check::schema::ResolvedScalarBooleanExpressionType;
use capability_check::schema::ScalarComparisonKind;
use capability_check::schema::TypeMapping;
use capability_check::validate::validate_data_connector_with_comparable_relationship;
use capability_check::validate::validate_data_connector_with_object_boolean_expression_type;
use capability_check::validate::validate_data_connector_with_scalar_boolean_expression_type;
use indexmap::IndexMap;

fn connector(
    name: &str,
    nested_object: bool,
    nested_object_array: bool,
    nested_scalar_array: bool,
    nested_relationships: bool,
) -> DataConnectorLink {
    DataConnectorLink {
        name: name.to_string(),
        capabilities: DataConnectorCapabilities {
            supports_nested_object_filtering: nested_object,
            supports_nested_object_array_filtering: nested_object_array,
            supports_nested_scalar_array_filtering: nested_scalar_array,
            supports_relationships: Some(RelationshipCapabilities {
                supports_nested_relationships: Some(NestedRelationshipCapabilities {
                    supports_nested_in_filtering: nested_relationships,
                }),
            }),
        },
    }
}

fn empty_fields() -> BooleanExpressionFields {
    BooleanExpressionFields {
        object_fields: vec![],
        scalar_fields: vec![],
        relationship_fields: vec![],
    }
}

fn predicate_type(name: &str, object_type: &str) -> ResolvedObjectBooleanExpressionType {
    ResolvedObjectBooleanExpressionType {
        name: name.to_string(),
        object_type: object_type.to_string(),
        fields: empty_fields(),
    }
}

fn empty_registry() -> BooleanExpressionTypes {
    BooleanExpressionTypes {
        objects: vec![],
        scalars: vec![],
    }
}

fn flags() -> FeatureFlags {
    FeatureFlags {
        enable_boolean_expression_fields: true,
    }
}

fn object_field(
    field: &str,
    child: &str,
    kind: ObjectComparisonKind,
) -> (String, ObjectComparisonExpressionInfo) {
    (
        field.to_string(),
        ObjectComparisonExpressionInfo {
            boolean_expression_type_name: child.to_string(),
            field_kind: kind,
        },
    )
}

fn scalar_field(
    field: &str,
    child: &str,
    kind: ScalarComparisonKind,
) -> (String, ComparisonExpressionInfo) {
    (
        field.to_string(),
        ComparisonExpressionInfo {
            boolean_expression_type_name: child.to_string(),
            field_kind: kind,
        },
    )
}

fn object_type_with_fields(fields: &[(&str, &str)]) -> ObjectTypeWithRelationships {
    ObjectTypeWithRelationships {
        fields: fields
            .iter()
            .map(|(name, ty)| {
                (
                    name.to_string(),
                    FieldDefinition {
                        field_type: ty.to_string(),
                    },
                )
            })
            .collect(),
        relationship_fields: vec![],
    }
}

#[test]
fn empty_field_maps_validate_ok() {
    let t = predicate_type("T", "Obj");
    let result = validate_data_connector_with_object_boolean_expression_type(
        &connector("B1", false, false, false, false),
        &vec![],
        &t,
        &empty_registry(),
        &vec![],
        &IndexMap::new(),
        &flags(),
    );
    assert_eq!(result, Ok(vec![]));
}

#[test]
fn suppressed_field_maps_validate_ok() {
    let mut t = predicate_type("T", "Obj");
    t.fields
        .scalar_fields
        .push(scalar_field("age", "IntComparison", ScalarComparisonKind::Scalar));
    let off = FeatureFlags {
        enable_boolean_expression_fields: false,
    };
    let result = validate_data_connector_with_object_boolean_expression_type(
        &connector("B1", false, false, false, false),
        &vec![],
        &t,
        &empty_registry(),
        &vec![],
        &IndexMap::new(),
        &off,
    );
    assert_eq!(result, Ok(vec![]));
}

#[test]
fn validation_is_deterministic() {
    let mut t = predicate_type("T", "Obj");
    t.fields
        .object_fields
        .push(object_field("address", "AddressBool", ObjectComparisonKind::ObjectArray));
    let mut registry = empty_registry();
    registry
        .objects
        .push(("AddressBool".to_string(), predicate_type("AddressBool", "Address")));
    let object_types = vec![("Obj".to_string(), object_type_with_fields(&[("address", "Address")]))];
    let backend = connector("B1", true, false, true, true);
    let first = validate_data_connector_with_object_boolean_expression_type(
        &backend,
        &vec![],
        &t,
        &registry,
        &object_types,
        &IndexMap::new(),
        &flags(),
    );
    let second = validate_data_connector_with_object_boolean_expression_type(
        &backend,
        &vec![],
        &t,
        &registry,
        &object_types,
        &IndexMap::new(),
        &flags(),
    );
    assert_eq!(first, second);
}

#[test]
fn nested_object_filtering_unsupported_is_fatal() {
    let mut t = predicate_type("T", "Obj");
    t.fields
        .object_fields
        .push(object_field("address", "AddressBool", ObjectComparisonKind::Object));
    let mut registry = empty_registry();
    registry
        .objects
        .push(("AddressBool".to_string(), predicate_type("AddressBool", "Address")));
    let object_types = vec![("Obj".to_string(), object_type_with_fields(&[("address", "Address")]))];
    let result = validate_data_connector_with_object_boolean_expression_type(
        &connector("B1", false, true, true, true),
        &vec![],
        &t,
        &registry,
        &object_types,
        &IndexMap::new(),
        &flags(),
    );
    assert_eq!(
        result,
        Err(BooleanExpressionError::DataConnectorDoesNotSupportNestedObjectFiltering {
            data_connector_name: "B1".to_string(),
            boolean_expression_type_name: "T".to_string(),
            field_name: "address".to_string(),
            field_type: "Address".to_string(),
        })
    );
}

#[test]
fn nested_object_array_filtering_unsupported_warns_per_field() {
    let mut t = predicate_type("T", "Obj");
    t.fields
        .object_fields
        .push(object_field("addresses", "AddressBool", ObjectComparisonKind::ObjectArray));
    t.fields
        .object_fields
        .push(object_field("parcels", "AddressBool", ObjectComparisonKind::ObjectArray));
    let mut registry = empty_registry();
    registry
        .objects
        .push(("AddressBool".to_string(), predicate_type("AddressBool", "Address")));
    let object_types = vec![(
        "Obj".to_string(),
        object_type_with_fields(&[("addresses", "Address"), ("parcels", "Address")]),
    )];
    let result = validate_data_connector_with_object_boolean_expression_type(
        &connector("B1", true, false, true, true),
        &vec![],
        &t,
        &registry,
        &object_types,
        &IndexMap::new(),
        &flags(),
    );
    let issue = |field: &str| BooleanExpressionIssue::DataConnectorDoesNotSupportNestedObjectArrayFiltering {
        data_connector_name: "B1".to_string(),
        boolean_expression_type_name: "T".to_string(),
        field_name: field.to_string(),
        field_type: "Address".to_string(),
    };
    assert_eq!(result, Ok(vec![issue("addresses"), issue("parcels")]));
}

#[test]
fn object_kind_field_after_array_fields_is_still_fatal() {
    let mut t = predicate_type("T", "Obj");
    t.fields
        .object_fields
        .push(object_field("addresses", "AddressBool", ObjectComparisonKind::ObjectArray));
    t.fields
        .object_fields
        .push(object_field("home", "AddressBool", ObjectComparisonKind::Object));
    let mut registry = empty_registry();
    registry
        .objects
        .push(("AddressBool".to_string(), predicate_type("AddressBool", "Address")));
    let object_types = vec![(
        "Obj".to_string(),
        object_type_with_fields(&[("addresses", "Address"), ("home", "Address")]),
    )];
    let result = validate_data_connector_with_object_boolean_expression_type(
        &connector("B1", false, false, true, true),
        &vec![],
        &t,
        &registry,
        &object_types,
        &IndexMap::new(),
        &flags(),
    );
    assert_eq!(
        result,
        Err(BooleanExpressionError::DataConnectorDoesNotSupportNestedObjectFiltering {
            data_connector_name: "B1".to_string(),
            boolean_expression_type_name: "T".to_string(),
            field_name: "home".to_string(),
            field_type: "Address".to_string(),
        })
    );
}

#[test]
fn unresolved_child_predicate_type_is_fatal() {
    let mut t = predicate_type("T", "Obj");
    t.fields
        .object_fields
        .push(object_field("address", "MissingBool", ObjectComparisonKind::Object));
    let result = validate_data_connector_with_object_boolean_expression_type(
        &connector("B1", true, true, true, true),
        &vec![],
        &t,
        &empty_registry(),
        &vec![],
        &IndexMap::new(),
        &flags(),
    );
    assert_eq!(
        result,
        Err(BooleanExpressionError::BooleanExpressionCouldNotBeFound {
            parent_boolean_expression: "T".to_string(),
            child_boolean_expression: "MissingBool".to_string(),
        })
    );
}

#[test]
fn unresolved_object_type_is_fatal() {
    let mut t = predicate_type("T", "Obj");
    t.fields
        .object_fields
        .push(object_field("address", "AddressBool", ObjectComparisonKind::Object));
    let mut registry = empty_registry();
    registry
        .objects
        .push(("AddressBool".to_string(), predicate_type("AddressBool", "Address")));
    let result = validate_data_connector_with_object_boolean_expression_type(
        &connector("B1", false, true, true, true),
        &vec![],
        &t,
        &registry,
        &vec![],
        &IndexMap::new(),
        &flags(),
    );
    assert_eq!(
        result,
        Err(BooleanExpressionError::UnknownTypeInObjectBooleanExpressionType {
            object_type_name: "T".to_string(),
            boolean_expression_type_name: "T".to_string(),
        })
    );
}

#[test]
fn unresolved_field_on_object_type_is_fatal() {
    let mut t = predicate_type("T", "Obj");
    t.fields
        .object_fields
        .push(object_field("address", "AddressBool", ObjectComparisonKind::Object));
    let mut registry = empty_registry();
    registry
        .objects
        .push(("AddressBool".to_string(), predicate_type("AddressBool", "Address")));
    let object_types = vec![("Obj".to_string(), object_type_with_fields(&[("other", "Text")]))];
    let result = validate_data_connector_with_object_boolean_expression_type(
        &connector("B1", false, true, true, true),
        &vec![],
        &t,
        &registry,
        &object_types,
        &IndexMap::new(),
        &flags(),
    );
    assert_eq!(
        result,
        Err(BooleanExpressionError::UnknownFieldInObjectBooleanExpressionType {
            field_name: "address".to_string(),
            object_boolean_expression_type: "T".to_string(),
        })
    );
}

#[test]
fn nested_relationship_filtering_unsupported_is_fatal() {
    let mut t = predicate_type("T", "Obj");
    t.fields
        .object_fields
        .push(object_field("address", "AddressBool", ObjectComparisonKind::Object));
    let mut child = predicate_type("AddressBool", "Address");
    child.fields.relationship_fields.push((
        "city".to_string(),
        BooleanExpressionComparableRelationship {
            relationship_name: "city".to_string(),
        },
    ));
    let mut registry = empty_registry();
    registry.objects.push(("AddressBool".to_string(), child));
    let result = validate_data_connector_with_object_boolean_expression_type(
        &connector("B1", true, true, true, false),
        &vec![],
        &t,
        &registry,
        &vec![],
        &IndexMap::new(),
        &flags(),
    );
    assert_eq!(
        result,
        Err(BooleanExpressionError::DataConnectorDoesNotSupportNestedRelationshipFiltering {
            data_connector_name: "B1".to_string(),
            parent_boolean_expression_type_name: "T".to_string(),
            field_name: "address".to_string(),
            nested_boolean_expression_type_name: "AddressBool".to_string(),
        })
    );
}

#[test]
fn issues_from_nested_predicate_types_bubble_up() {
    let mut t = predicate_type("T", "Obj");
    t.fields
        .object_fields
        .push(object_field("address", "AddressBool", ObjectComparisonKind::Object));
    let mut child = predicate_type("AddressBool", "Address");
    child
        .fields
        .scalar_fields
        .push(scalar_field("tags", "TextComparison", ScalarComparisonKind::ScalarArray));
    let mut registry = empty_registry();
    registry.objects.push(("AddressBool".to_string(), child));
    registry.scalars.push((
        "TextComparison".to_string(),
        ResolvedScalarBooleanExpressionType {
            data_connector_operator_mappings: vec!["B1".to_string()],
        },
    ));
    let object_types = vec![
        ("Obj".to_string(), object_type_with_fields(&[("address", "Address")])),
        ("Address".to_string(), object_type_with_fields(&[("tags", "TextArray")])),
    ];
    let result = validate_data_connector_with_object_boolean_expression_type(
        &connector("B1", true, true, false, true),
        &vec![],
        &t,
        &registry,
        &object_types,
        &IndexMap::new(),
        &flags(),
    );
    assert_eq!(
        result,
        Ok(vec![
            BooleanExpressionIssue::DataConnectorDoesNotSupportNestedScalarArrayFiltering {
                data_connector_name: "B1".to_string(),
                boolean_expression_type_name: "AddressBool".to_string(),
                field_name: "tags".to_string(),
                field_type: "TextArray".to_string(),
            },
        ])
    );
}

#[test]
fn fatal_error_discards_issues_collected_before_it() {
    // The first field would record a degraded-feature issue; the scalar field
    // after it fails fatally, and only the error comes back.
    let mut t = predicate_type("T", "Obj");
    t.fields
        .object_fields
        .push(object_field("addresses", "AddressBool", ObjectComparisonKind::ObjectArray));
    t.fields
        .scalar_fields
        .push(scalar_field("age", "IntComparison", ScalarComparisonKind::Scalar));
    let mut registry = empty_registry();
    registry
        .objects
        .push(("AddressBool".to_string(), predicate_type("AddressBool", "Address")));
    registry.scalars.push((
        "IntComparison".to_string(),
        ResolvedScalarBooleanExpressionType {
            data_connector_operator_mappings: vec!["B2".to_string()],
        },
    ));
    let object_types = vec![(
        "Obj".to_string(),
        object_type_with_fields(&[("addresses", "Address"), ("age", "Int")]),
    )];
    let result = validate_data_connector_with_object_boolean_expression_type(
        &connector("B1", true, false, true, true),
        &vec![],
        &t,
        &registry,
        &object_types,
        &IndexMap::new(),
        &flags(),
    );
    assert_eq!(
        result,
        Err(BooleanExpressionError::DataConnectorMappingMissingForField {
            field: "age".to_string(),
            boolean_expression_name: "T".to_string(),
            data_connector_name: "B1".to_string(),
        })
    );
}

#[test]
fn scalar_mapping_for_other_backend_only_is_fatal() {
    let scalar = ResolvedScalarBooleanExpressionType {
        data_connector_operator_mappings: vec!["B2".to_string()],
    };
    let result = validate_data_connector_with_scalar_boolean_expression_type(
        &scalar,
        &"T".to_string(),
        &connector("B1", true, true, true, true),
        &"age".to_string(),
    );
    assert_eq!(
        result,
        Err(BooleanExpressionError::DataConnectorMappingMissingForField {
            field: "age".to_string(),
            boolean_expression_name: "T".to_string(),
            data_connector_name: "B1".to_string(),
        })
    );
    let mapped = ResolvedScalarBooleanExpressionType {
        data_connector_operator_mappings: vec!["B2".to_string(), "B1".to_string()],
    };
    let ok = validate_data_connector_with_scalar_boolean_expression_type(
        &mapped,
        &"T".to_string(),
        &connector("B1", true, true, true, true),
        &"age".to_string(),
    );
    assert_eq!(ok, Ok(()));
}

fn relationship_schema(
    eq_operator: Option<&str>,
    model_source: Option<&str>,
) -> (
    ResolvedObjectBooleanExpressionType,
    Vec<(String, TypeMapping)>,
    Vec<(String, ObjectTypeWithRelationships)>,
    IndexMap<String, Model>,
) {
    let mut t = predicate_type("T", "Obj");
    t.fields.relationship_fields.push((
        "R".to_string(),
        BooleanExpressionComparableRelationship {
            relationship_name: "R".to_string(),
        },
    ));
    let object_type = ObjectTypeWithRelationships {
        fields: vec![(
            "id".to_string(),
            FieldDefinition {
                field_type: "Int".to_string(),
            },
        )],
        relationship_fields: vec![(
            "R".to_string(),
            Relationship {
                target: RelationshipTarget::Model(RelationshipModelTarget {
                    model_name: "M".to_string(),
                    mappings: vec![RelationshipFieldMapping {
                        source_field: "id".to_string(),
                    }],
                }),
            },
        )],
    };
    let type_mappings = vec![(
        "Obj".to_string(),
        TypeMapping {
            field_mappings: vec![(
                "id".to_string(),
                FieldMapping {
                    column: "id_col".to_string(),
                    comparison_operators: eq_operator.map(|op| ComparisonOperators {
                        eq_operator: Some(op.to_string()),
                    }),
                },
            )],
        },
    )];
    let mut models = IndexMap::new();
    models.insert(
        "M".to_string(),
        Model {
            name: "M".to_string(),
            source: model_source.map(|backend| ModelSource {
                data_connector_name: backend.to_string(),
            }),
        },
    );
    (t, type_mappings, vec![("Obj".to_string(), object_type)], models)
}

#[test]
fn cross_backend_relationship_without_equality_operator_is_fatal() {
    let (t, type_mappings, object_types, models) = relationship_schema(None, Some("B2"));
    let result = validate_data_connector_with_object_boolean_expression_type(
        &connector("B1", true, true, true, true),
        &type_mappings,
        &t,
        &empty_registry(),
        &object_types,
        &models,
        &flags(),
    );
    assert_eq!(
        result,
        Err(BooleanExpressionError::MissingEqualOperator {
            relationship_name: "R".to_string(),
            object_type_name: "Obj".to_string(),
            field_name: "id".to_string(),
            ndc_column: "id_col".to_string(),
            data_connector_name: "B1".to_string(),
        })
    );
}

#[test]
fn cross_backend_relationship_with_equality_operator_succeeds() {
    let (t, type_mappings, object_types, models) = relationship_schema(Some("_eq"), Some("B2"));
    let result = validate_data_connector_with_object_boolean_expression_type(
        &connector("B1", true, true, true, true),
        &type_mappings,
        &t,
        &empty_registry(),
        &object_types,
        &models,
        &flags(),
    );
    assert_eq!(result, Ok(vec![]));
}

#[test]
fn local_relationship_needs_no_equality_operator() {
    let (t, type_mappings, object_types, models) = relationship_schema(None, Some("B1"));
    let result = validate_data_connector_with_object_boolean_expression_type(
        &connector("B1", true, true, true, true),
        &type_mappings,
        &t,
        &empty_registry(),
        &object_types,
        &models,
        &flags(),
    );
    assert_eq!(result, Ok(vec![]));
}

#[test]
fn sourceless_target_model_is_fatal_despite_full_capabilities() {
    let (t, type_mappings, object_types, models) = relationship_schema(Some("_eq"), None);
    let result = validate_data_connector_with_object_boolean_expression_type(
        &connector("B1", true, true, true, true),
        &type_mappings,
        &t,
        &empty_registry(),
        &object_types,
        &models,
        &flags(),
    );
    assert_eq!(
        result,
        Err(BooleanExpressionError::CannotUseFilterExpressionsWithoutSource {
            model: "M".to_string(),
        })
    );
}

#[test]
fn unknown_relationship_on_object_type_is_fatal() {
    let (mut t, type_mappings, object_types, models) = relationship_schema(Some("_eq"), Some("B2"));
    t.fields.relationship_fields[0].1.relationship_name = "Missing".to_string();
    t.fields.relationship_fields[0].0 = "Missing".to_string();
    let result = validate_data_connector_with_object_boolean_expression_type(
        &connector("B1", true, true, true, true),
        &type_mappings,
        &t,
        &empty_registry(),
        &object_types,
        &models,
        &flags(),
    );
    assert_eq!(
        result,
        Err(BooleanExpressionError::UnknownRelationshipInTypePredicate {
            relationship_name: "Missing".to_string(),
            object_type_name: "Obj".to_string(),
        })
    );
}

#[test]
fn unknown_target_model_is_fatal() {
    let (t, type_mappings, object_types, _) = relationship_schema(Some("_eq"), Some("B2"));
    let result = validate_data_connector_with_object_boolean_expression_type(
        &connector("B1", true, true, true, true),
        &type_mappings,
        &t,
        &empty_registry(),
        &object_types,
        &IndexMap::new(),
        &flags(),
    );
    assert_eq!(
        result,
        Err(BooleanExpressionError::UnknownModelUsedInRelationshipTypePredicate {
            object_type_name: "Obj".to_string(),
            target_model_name: "M".to_string(),
            relationship_name: "R".to_string(),
        })
    );
}

#[test]
fn missing_type_mapping_for_cross_backend_relationship_is_fatal() {
    let (t, _, object_types, models) = relationship_schema(Some("_eq"), Some("B2"));
    let result = validate_data_connector_with_object_boolean_expression_type(
        &connector("B1", true, true, true, true),
        &vec![],
        &t,
        &empty_registry(),
        &object_types,
        &models,
        &flags(),
    );
    assert_eq!(
        result,
        Err(BooleanExpressionError::UnknownTypeMapping {
            object_type_name: "Obj".to_string(),
            data_connector_name: "B1".to_string(),
        })
    );
}

#[test]
fn missing_field_mapping_for_join_key_is_fatal() {
    let (t, mut type_mappings, object_types, models) = relationship_schema(Some("_eq"), Some("B2"));
    type_mappings[0].1.field_mappings.clear();
    let result = validate_data_connector_with_object_boolean_expression_type(
        &connector("B1", true, true, true, true),
        &type_mappings,
        &t,
        &empty_registry(),
        &object_types,
        &models,
        &flags(),
    );
    assert_eq!(
        result,
        Err(BooleanExpressionError::UnknownFieldMapping {
            object_type_name: "Obj".to_string(),
            field_name: "id".to_string(),
            data_connector_name: "B1".to_string(),
        })
    );
}

#[test]
fn non_model_relationship_target_is_not_checked() {
    let (t, type_mappings, mut object_types, models) = relationship_schema(None, None);
    object_types[0].1.relationship_fields[0].1 = Relationship {
        target: RelationshipTarget::Other,
    };
    let result = validate_data_connector_with_object_boolean_expression_type(
        &connector("B1", true, true, true, true),
        &type_mappings,
        &t,
        &empty_registry(),
        &object_types,
        &models,
        &flags(),
    );
    assert_eq!(result, Ok(vec![]));
}

#[test]
fn relationship_validator_reports_unknown_object_type() {
    let result = validate_data_connector_with_comparable_relationship(
        &connector("B1", true, true, true, true),
        &vec![],
        &predicate_type("T", "Obj"),
        &BooleanExpressionComparableRelationship {
            relationship_name: "R".to_string(),
        },
        &vec![],
        &IndexMap::new(),
    );
    assert_eq!(
        result,
        Err(BooleanExpressionError::UnknownTypeInObjectBooleanExpressionType {
            object_type_name: "Obj".to_string(),
            boolean_expression_type_name: "T".to_string(),
        })
    );
}

#[test]
fn unresolved_scalar_predicate_type_is_fatal() {
    let mut t = predicate_type("T", "Obj");
    t.fields
        .scalar_fields
        .push(scalar_field("age", "MissingComparison", ScalarComparisonKind::Scalar));
    let result = validate_data_connector_with_object_boolean_expression_type(
        &connector("B1", true, true, true, true),
        &vec![],
        &t,
        &empty_registry(),
        &vec![],
        &IndexMap::new(),
        &flags(),
    );
    assert_eq!(
        result,
        Err(BooleanExpressionError::ScalarBooleanExpressionCouldNotBeFound {
            parent_boolean_expression: "T".to_string(),
            child_boolean_expression: "MissingComparison".to_string(),
        })
    );
}

#[test]
fn self_referencing_predicate_type_is_fatal() {
    let mut t = predicate_type("Recursive", "Obj");
    t.fields
        .object_fields
        .push(object_field("this", "Recursive", ObjectComparisonKind::Object));
    let mut registry = empty_registry();
    registry.objects.push(("Recursive".to_string(), t.clone()));
    let result = validate_data_connector_with_object_boolean_expression_type(
        &connector("B1", true, true, true, true),
        &vec![],
        &t,
        &registry,
        &vec![],
        &IndexMap::new(),
        &flags(),
    );
    assert_eq!(
        result,
        Err(BooleanExpressionError::RecursiveBooleanExpression {
            boolean_expression_type_name: "Recursive".to_string(),
        })
    );
}
