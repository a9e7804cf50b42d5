//! Typed shapes of the REST collaborator's requests and replies. The
//! streaming core treats that collaborator as external; these are plain data
//! carriers with no behaviour of their own.

use vstd::prelude::*;

use std::collections::HashMap;

verus! {

/// A page of query results.
#[derive(Debug)]
pub struct QueryResponse<T> {
    pub total_size: i32,
    pub done: bool,
    pub next_records_url: Option<String>,
    pub records: Vec<T>,
}

/// The reply to inserting or upserting one record.
#[derive(Debug)]
pub struct UpsertResponse {
    pub id: String,
    pub success: bool,
}

/// One outcome of a composite (multi-record) request.
#[derive(Debug)]
pub struct CompositeResponse {
    pub id: Option<String>,
    pub success: bool,
    pub errors: Vec<RecordErrorResponse>,
}

/// The object-type tag a record request carries.
#[derive(Debug)]
pub struct RecordRequestAttribute {
    pub sobject_type: String,
}

/// One record of a composite request.
#[derive(Debug)]
pub struct RecordRequest<T> {
    pub attributes: RecordRequestAttribute,
    pub record: T,
}

/// The body of a composite request.
#[derive(Debug)]
pub struct CompositeBodyRequest<T> {
    pub all_or_none: bool,
    pub records: Vec<T>,
}

/// The reply to a single-record write.
#[derive(Debug)]
pub struct RecordsResponse {
    pub id: String,
    pub success: bool,
    pub created: Option<bool>,
    pub errors: RecordErrorResponse,
}

/// One error attached to a record outcome.
#[derive(Debug)]
pub struct RecordErrorResponse {
    pub message: String,
    pub status_code: String,
    pub fields: Vec<String>,
}

/// The error reply of the token endpoint.
#[derive(Debug)]
pub struct TokenErrorResponse {
    pub error: String,
    pub error_description: String,
}

/// The reply of the token endpoint.
#[derive(Debug)]
pub struct TokenResponse {
    pub id: String,
    pub issued_at: String,
    pub access_token: String,
    pub instance_url: String,
    pub signature: String,
    pub token_type: Option<String>,
}

/// A bearer credential as the transport attaches it.
#[derive(Debug)]
pub struct AccessToken {
    pub token_type: String,
    pub value: String,
    pub issued_at: String,
}

/// The description of one object type.
#[derive(Debug)]
pub struct DescribeResponse {
    pub activateable: bool,
    pub child_relationships: Vec<ChildRelationship>,
    pub compact_layoutable: bool,
    pub createable: bool,
    pub custom: bool,
    pub custom_setting: bool,
    pub deletable: bool,
    pub deprecated_and_hidden: bool,
    pub feed_enabled: bool,
    pub fields: Vec<Field>,
    pub has_subtypes: bool,
    pub is_subtype: bool,
    pub key_prefix: Option<String>,
    pub label: String,
    pub label_plural: String,
    pub layoutable: bool,
    pub listviewable: Option<bool>,
    pub lookup_layoutable: Option<bool>,
    pub mergeable: bool,
    pub mru_enabled: bool,
    pub name: String,
    pub queryable: bool,
    pub replicateable: bool,
    pub retrieveable: bool,
    pub search_layoutable: bool,
    pub searchable: bool,
    pub triggerable: bool,
    pub undeletable: bool,
    pub updateable: bool,
    pub urls: Urls,
}

/// The description of one field of an object type.
#[derive(Debug)]
pub struct Field {
    pub aggregatable: bool,
    pub ai_prediction_field: bool,
    pub auto_number: bool,
    pub byte_length: u32,
    pub calculated: bool,
    pub calculated_formula: Option<String>,
    pub cascade_delete: bool,
    pub case_sensitive: bool,
    pub compound_field_name: Option<String>,
    pub controller_name: Option<String>,
    pub createable: bool,
    pub custom: bool,
    pub default_value_formula: Option<String>,
    pub defaulted_on_create: bool,
    pub dependent_picklist: bool,
    pub deprecated_and_hidden: bool,
    pub digits: u8,
    pub display_location_in_decimal: bool,
    pub encrypted: bool,
    pub external_id: bool,
    pub extra_type_info: Option<String>,
    pub filterable: bool,
    pub filtered_lookup_info: Option<String>,
    pub formula_treat_null_number_as_zero: bool,
    pub groupable: bool,
    pub high_scale_number: bool,
    pub html_formatted: bool,
    pub id_lookup: bool,
    pub inline_help_text: Option<String>,
    pub label: String,
    pub length: u32,
    pub mask: Option<String>,
    pub mask_type: Option<String>,
    pub name: String,
    pub name_field: bool,
    pub name_pointing: bool,
    pub nillable: bool,
    pub permissionable: bool,
    pub polymorphic_foreign_key: bool,
    pub precision: u8,
    pub query_by_distance: bool,
    pub reference_target_field: Option<String>,
    pub relationship_name: Option<String>,
    pub relationship_order: Option<String>,
    pub restricted_delete: bool,
    pub restricted_picklist: bool,
    pub scale: u8,
    pub search_prefilterable: bool,
    pub soap_type: String,
    pub sortable: bool,
    pub field_type: String,
    pub unique: bool,
    pub updateable: bool,
    pub write_requires_master_read: bool,
}

/// One child relationship of an object type.
#[derive(Debug)]
pub struct ChildRelationship {
    pub cascade_delete: bool,
    pub child_sobject: Option<String>,
    pub deprecated_and_hidden: bool,
    pub field: String,
    pub relationship_name: Option<String>,
    pub restricted_delete: bool,
}

/// The resource paths the description points at.
#[derive(Debug)]
pub struct Urls {
    pub compact_layouts: String,
    pub row_template: String,
    pub approval_layouts: String,
    pub ui_detail_template: String,
    pub ui_edit_template: String,
    pub default_values: String,
    pub listviews: String,
    pub describe: String,
    pub ui_new_record: String,
    pub quick_actions: String,
    pub layouts: String,
    pub sobject: String,
}

/// The global description of every object type.
#[derive(Debug)]
pub struct DescribeGlobalResponse {
    pub encoding: String,
    pub max_batch_size: u16,
    pub sobjects: Vec<DescribeGlobalSObjectResponse>,
}

/// One entry of the global description.
#[derive(Debug)]
pub struct DescribeGlobalSObjectResponse {
    pub activateable: bool,
    pub createable: bool,
    pub custom: bool,
    pub custom_setting: bool,
    pub deletable: bool,
    pub deprecated_and_hidden: bool,
    pub feed_enabled: bool,
    pub has_subtypes: bool,
    pub is_subtype: bool,
    pub key_prefix: Option<String>,
    pub label: String,
    pub label_plural: String,
    pub layoutable: bool,
    pub mergeable: bool,
    pub mru_enabled: bool,
    pub name: String,
    pub queryable: bool,
    pub replicateable: bool,
    pub retrieveable: bool,
    pub searchable: bool,
    pub triggerable: bool,
    pub undeletable: bool,
    pub updateable: bool,
    pub urls: HashMap<String, String>,
}

/// A page of search results.
#[derive(Debug)]
pub struct SearchResponse {
    pub search_records: Vec<SearchRecord>,
}

/// One search hit.
#[derive(Debug)]
pub struct SearchRecord {
    pub id: String,
    pub attributes: SObjectAttribute,
}

/// The attributes of one returned record.
#[derive(Debug)]
pub struct SObjectAttribute {
    pub sobject_type: String,
    pub url: String,
}

/// One supported API version.
#[derive(Debug)]
pub struct VersionResponse {
    pub label: String,
    pub url: String,
    pub version: String,
}

} // verus!
