//! The schema entities a predicate type is validated over: predicate types and
//! their field maps, object types, relationships, models, per-backend type
//! mappings, and the capability flags a data connector declares.
//!
//! All registries are read-only inputs owned by the caller. Name-keyed maps are
//! held as vectors of `(name, value)` pairs; the first pair whose name matches
//! wins (see `crate::lookup`).
use vstd::prelude::*;

verus! {

/// How an object-valued comparison field nests: a single object or an array of objects.
#[derive(Clone, Copy, PartialEq, Eq, Debug)]
pub enum ObjectComparisonKind {
    Object,
    ObjectArray,
}

/// How a scalar-valued comparison field nests: a single scalar or an array of scalars.
#[derive(Clone, Copy, PartialEq, Eq, Debug)]
pub enum ScalarComparisonKind {
    Scalar,
    ScalarArray,
}

/// An object-valued field of a predicate type: the name of the child predicate
/// type it filters through, and how the field nests.
#[derive(Clone, PartialEq, Eq, Debug)]
pub struct ObjectComparisonExpressionInfo {
    pub boolean_expression_type_name: String,
    pub field_kind: ObjectComparisonKind,
}

/// A scalar-valued field of a predicate type: the name of the scalar predicate
/// type it compares through, and how the field nests.
#[derive(Clone, PartialEq, Eq, Debug)]
pub struct ComparisonExpressionInfo {
    pub boolean_expression_type_name: String,
    pub field_kind: ScalarComparisonKind,
}

/// A relationship field of a predicate type: filters traverse the named
/// relationship into a related model.
#[derive(Clone, PartialEq, Eq, Debug)]
pub struct BooleanExpressionComparableRelationship {
    pub relationship_name: String,
}

/// The three field maps a predicate type owns, each keyed by field name.
#[derive(Clone, PartialEq, Eq, Debug)]
pub struct BooleanExpressionFields {
    pub object_fields: Vec<(String, ObjectComparisonExpressionInfo)>,
    pub scalar_fields: Vec<(String, ComparisonExpressionInfo)>,
    pub relationship_fields: Vec<(String, BooleanExpressionComparableRelationship)>,
}

/// A predicate type over an object type: the boolean-expression type whose
/// compatibility with a data connector this crate decides.
#[derive(Clone, PartialEq, Eq, Debug)]
pub struct ResolvedObjectBooleanExpressionType {
    pub name: String,
    /// Name of the object type the predicate ranges over.
    pub object_type: String,
    pub fields: BooleanExpressionFields,
}

/// A predicate type over a scalar. Only the set of backends it carries operator
/// mappings for matters here: presence of a backend's name means the scalar is
/// usable with that backend.
#[derive(Clone, PartialEq, Eq, Debug)]
pub struct ResolvedScalarBooleanExpressionType {
    /// Names of the data connectors for which operator mappings are defined.
    pub data_connector_operator_mappings: Vec<String>,
}

/// The predicate-type registry, partitioned into the object-flavored and the
/// scalar-flavored namespace.
#[derive(Clone, PartialEq, Eq, Debug)]
pub struct BooleanExpressionTypes {
    pub objects: Vec<(String, ResolvedObjectBooleanExpressionType)>,
    pub scalars: Vec<(String, ResolvedScalarBooleanExpressionType)>,
}

/// A field of an object type, reduced to what validation reads: its declared type.
#[derive(Clone, PartialEq, Eq, Debug)]
pub struct FieldDefinition {
    pub field_type: String,
}

/// The model-flavored target of a relationship: the model filtered into, and the
/// field-to-field mappings joining source to target.
#[derive(Clone, PartialEq, Eq, Debug)]
pub struct RelationshipModelTarget {
    pub model_name: String,
    pub mappings: Vec<RelationshipFieldMapping>,
}

/// One source-field entry of a relationship's field-to-field mappings.
#[derive(Clone, PartialEq, Eq, Debug)]
pub struct RelationshipFieldMapping {
    pub source_field: String,
}

/// What a relationship points at. Only model targets are validated here; any
/// other target kind is out of this check's jurisdiction.
#[derive(Clone, PartialEq, Eq, Debug)]
pub enum RelationshipTarget {
    Model(RelationshipModelTarget),
    Other,
}

/// A relationship declared on an object type.
#[derive(Clone, PartialEq, Eq, Debug)]
pub struct Relationship {
    pub target: RelationshipTarget,
}

/// An object type together with its relationships: a field-name map of declared
/// types and a relationship-name map.
#[derive(Clone, PartialEq, Eq, Debug)]
pub struct ObjectTypeWithRelationships {
    pub fields: Vec<(String, FieldDefinition)>,
    pub relationship_fields: Vec<(String, Relationship)>,
}

/// Where a model executes. Absence means the model has no executable backend at all.
#[derive(Clone, PartialEq, Eq, Debug)]
pub struct ModelSource {
    pub data_connector_name: String,
}

/// A model a relationship can target.
#[derive(Clone, PartialEq, Eq, Debug)]
pub struct Model {
    pub name: String,
    pub source: Option<ModelSource>,
}

/// The comparison operators a backend column supports; only the equality
/// operator is read here.
#[derive(Clone, PartialEq, Eq, Debug)]
pub struct ComparisonOperators {
    pub eq_operator: Option<String>,
}

/// Per-backend mapping of one object-type field to a backend column.
#[derive(Clone, PartialEq, Eq, Debug)]
pub struct FieldMapping {
    pub column: String,
    pub comparison_operators: Option<ComparisonOperators>,
}

/// Per-backend mapping of a whole object type, keyed by field name.
#[derive(Clone, PartialEq, Eq, Debug)]
pub struct TypeMapping {
    pub field_mappings: Vec<(String, FieldMapping)>,
}

/// Whether relationships may appear nested inside a filter.
#[derive(Clone, Copy, PartialEq, Eq, Debug)]
pub struct NestedRelationshipCapabilities {
    pub supports_nested_in_filtering: bool,
}

/// A data connector's relationship support; the nested structure is optional,
/// and absence means unsupported, never unknown.
#[derive(Clone, Copy, PartialEq, Eq, Debug)]
pub struct RelationshipCapabilities {
    pub supports_nested_relationships: Option<NestedRelationshipCapabilities>,
}

/// The fixed capability flags a data connector declares for filtering.
#[derive(Clone, Copy, PartialEq, Eq, Debug)]
pub struct DataConnectorCapabilities {
    pub supports_nested_object_filtering: bool,
    pub supports_nested_object_array_filtering: bool,
    pub supports_nested_scalar_array_filtering: bool,
    pub supports_relationships: Option<RelationshipCapabilities>,
}

/// A data connector: its name and its declared capabilities.
#[derive(Clone, PartialEq, Eq, Debug)]
pub struct DataConnectorLink {
    pub name: String,
    pub capabilities: DataConnectorCapabilities,
}

/// The feature flags gating whether a predicate type exposes its field maps to
/// validation at all.
#[derive(Clone, Copy, PartialEq, Eq, Debug)]
pub struct FeatureFlags {
    pub enable_boolean_expression_fields: bool,
}

/// A non-fatal finding: the named feature degrades on this connector, but the
/// predicate type stays usable. Issues are accumulated over the whole tree and
/// reported together on success.
#[derive(Clone, PartialEq, Eq, Debug)]
pub enum BooleanExpressionIssue {
    DataConnectorDoesNotSupportNestedObjectArrayFiltering {
        data_connector_name: String,
        boolean_expression_type_name: String,
        field_name: String,
        field_type: String,
    },
    DataConnectorDoesNotSupportNestedScalarArrayFiltering {
        data_connector_name: String,
        boolean_expression_type_name: String,
        field_name: String,
        field_type: String,
    },
}

/// A fatal finding: the predicate type cannot be used with this connector at
/// all, or the schema graph is internally inconsistent. The first one found
/// anywhere in the tree aborts the whole check and discards all issues.
#[derive(Clone, PartialEq, Eq, Debug)]
pub enum BooleanExpressionError {
    BooleanExpressionCouldNotBeFound {
        parent_boolean_expression: String,
        child_boolean_expression: String,
    },
    ScalarBooleanExpressionCouldNotBeFound {
        parent_boolean_expression: String,
        child_boolean_expression: String,
    },
    UnknownTypeInObjectBooleanExpressionType {
        object_type_name: String,
        boolean_expression_type_name: String,
    },
    UnknownFieldInObjectBooleanExpressionType {
        field_name: String,
        object_boolean_expression_type: String,
    },
    DataConnectorDoesNotSupportNestedObjectFiltering {
        data_connector_name: String,
        boolean_expression_type_name: String,
        field_name: String,
        field_type: String,
    },
    DataConnectorDoesNotSupportNestedRelationshipFiltering {
        data_connector_name: String,
        parent_boolean_expression_type_name: String,
        field_name: String,
        nested_boolean_expression_type_name: String,
    },
    DataConnectorMappingMissingForField {
        field: String,
        boolean_expression_name: String,
        data_connector_name: String,
    },
    UnknownRelationshipInTypePredicate {
        relationship_name: String,
        object_type_name: String,
    },
    UnknownModelUsedInRelationshipTypePredicate {
        object_type_name: String,
        target_model_name: String,
        relationship_name: String,
    },
    CannotUseFilterExpressionsWithoutSource {
        model: String,
    },
    UnknownTypeMapping {
        object_type_name: String,
        data_connector_name: String,
    },
    UnknownFieldMapping {
        object_type_name: String,
        field_name: String,
        data_connector_name: String,
    },
    MissingEqualOperator {
        relationship_name: String,
        object_type_name: String,
        field_name: String,
        ndc_column: String,
        data_connector_name: String,
    },
    /// Predicate types that reference each other in a cycle cannot be walked;
    /// re-entering a type already on the current path is rejected.
    RecursiveBooleanExpression {
        boolean_expression_type_name: String,
    },
}

impl ResolvedObjectBooleanExpressionType {
    /// The field maps this predicate type carries under the active feature
    /// flags, or `None` when the flags suppress them.
    pub open spec fn spec_get_fields(self, flags: FeatureFlags) -> Option<BooleanExpressionFields> {
        if flags.enable_boolean_expression_fields {
            Some(self.fields)
        } else {
            None
        }
    }

    /// Executable counterpart of [`Self::spec_get_fields`].
    pub fn get_fields<'a>(&'a self, flags: &FeatureFlags) -> (r: Option<&'a BooleanExpressionFields>)
        ensures
            match r {
                Some(fields) => self.spec_get_fields(*flags) == Some(*fields),
                None => self.spec_get_fields(*flags) is None,
            },
    {
        if flags.enable_boolean_expression_fields {
            Some(&self.fields)
        } else {
            None
        }
    }
}

/// Whether the capabilities allow relationship comparisons nested inside a
/// filter: both optional layers must be present and the innermost flag set.
pub open spec fn spec_supports_nested_relationships_in_filtering(
    capabilities: DataConnectorCapabilities,
) -> bool {
    match capabilities.supports_relationships {
        Some(relationship_capabilities) => match relationship_capabilities
            .supports_nested_relationships {
            Some(nested) => nested.supports_nested_in_filtering,
            None => false,
        },
        None => false,
    }
}

/// Executable counterpart of [`spec_supports_nested_relationships_in_filtering`].
pub fn supports_nested_relationships_in_filtering(
    capabilities: &DataConnectorCapabilities,
) -> (r: bool)
    ensures
        r == spec_supports_nested_relationships_in_filtering(*capabilities),
{
    match &capabilities.supports_relationships {
        Some(relationship_capabilities) => match &relationship_capabilities
            .supports_nested_relationships {
            Some(nested) => nested.supports_nested_in_filtering,
            None => false,
        },
        None => false,
    }
}

} // verus!
