//! The rows of the store: each entity as the values of its table's columns,
//! in the order in which the store selects them, and back.
//!
//! Writing an entity and reading the row back gives the entity again: see the
//! `lemma_*_row_roundtrip` proofs.

use vstd::prelude::*;

use crate::data::codes::{
    analysis_type_code, analysis_type_from_str, analysis_type_of_code, analysis_type_to_str,
    layer_type_code, layer_type_from_str, layer_type_of_code, layer_type_to_str, priority_code,
    priority_from_str, priority_of_code, priority_to_str, source_code, source_from_str,
    source_of_code, source_to_str, status_code, status_from_str, status_of_code, status_to_str,
    lemma_analysis_type_code_roundtrip, lemma_layer_type_code_roundtrip,
    lemma_priority_code_roundtrip, lemma_source_code_roundtrip, lemma_status_code_roundtrip,
};
use crate::data::ids::{ulid_from_text, ulid_parse, ulid_text, ulid_to_text, lemma_ulid_text_roundtrip};
use crate::data::json::{from_json_array, json_strings_of_text, json_text_of_strings, to_json_array};
use crate::domain::entities::{AiProfile, Attachment, Contact, GisFeature, GisLayer, MailAccount, MailMessage, Proposal, WorkItem};
use crate::text::string_views;

verus! {

/// A column that should hold a ULID text holds something else.
#[derive(Debug, Clone, Copy, PartialEq, Eq, Structural)]
pub struct ColumnError {
    /// The position of the column in the selected row.
    pub column: usize,
}

/// The id stored as `s` in a text column; `None` when `s` is not a ULID text.
pub open spec fn stored_id(s: String) -> Option<u128> {
    ulid_parse(s@)
}

/// The optional id stored in an optional text column: `Some(None)` for no text,
/// `Some(Some(id))` for a ULID text, `None` for any other text.
pub open spec fn stored_opt_id(s: Option<String>) -> Option<Option<u128>> {
    match s {
        None => Some(None),
        Some(t) => match ulid_parse(t@) {
            Some(v) => Some(Some(v)),
            None => None,
        },
    }
}

/// Whether `s` is the text column that stores the optional id `id`.
pub open spec fn stores_opt_id(s: Option<String>, id: Option<u128>) -> bool {
    match id {
        None => s is None,
        Some(v) => s is Some && s.unwrap()@ == ulid_text(v),
    }
}

/// The list of strings stored as the JSON text `t`: empty when `t` is not a
/// JSON array of strings.
pub open spec fn stored_strings(t: Seq<char>) -> Seq<Seq<char>> {
    match json_strings_of_text(t) {
        Some(l) => l,
        None => Seq::empty(),
    }
}

/// Whether two optional strings hold the same characters.
pub open spec fn same_opt_text(a: Option<String>, b: Option<String>) -> bool {
    match (a, b) {
        (None, None) => true,
        (Some(x), Some(y)) => x@ == y@,
        _ => false,
    }
}

/// Parse a ULID stored as text in column `col`.
pub fn parse_ulid_col(s: &str, col: usize) -> (r: Result<u128, ColumnError>)
    ensures
        r == match ulid_parse(s@) {
            Some(v) => Ok::<u128, ColumnError>(v),
            None => Err(ColumnError { column: col }),
        },
{
    match ulid_from_text(s) {
        Some(v) => Ok(v),
        None => Err(ColumnError { column: col }),
    }
}

/// Parse an optional ULID stored as text in column `col`.
fn parse_opt_ulid_col(s: &Option<String>, col: usize) -> (r: Result<Option<u128>, ColumnError>)
    ensures
        r == match stored_opt_id(*s) {
            Some(v) => Ok::<Option<u128>, ColumnError>(v),
            None => Err(ColumnError { column: col }),
        },
{
    match s {
        None => Ok(None),
        Some(t) => match parse_ulid_col(t.as_str(), col) {
            Ok(v) => Ok(Some(v)),
            Err(e) => Err(e),
        },
    }
}

/// The text column of an optional id.
fn opt_ulid_text(id: Option<u128>) -> (r: Option<String>)
    ensures
        stores_opt_id(r, id),
{
    match id {
        None => None,
        Some(v) => Some(ulid_to_text(v)),
    }
}

/// A copy of an optional string.
fn copy_opt_text(s: &Option<String>) -> (r: Option<String>)
    ensures
        r == *s,
{
    match s {
        None => None,
        Some(t) => Some(t.clone()),
    }
}

/// The column of an optional `u32` limit.
fn opt_u32_column(v: Option<u32>) -> (r: Option<i64>)
    ensures
        r == match v {
            Some(x) => Some(x as i64),
            None => None::<i64>,
        },
{
    match v {
        Some(x) => Some(x as i64),
        None => None,
    }
}

/// The optional `u32` limit read from its column, truncated as `as u32` does.
fn opt_u32_of_column(v: Option<i64>) -> (r: Option<u32>)
    ensures
        r == match v {
            Some(x) => Some(x as u32),
            None => None::<u32>,
        },
{
    match v {
        Some(x) => Some(x as u32),
        None => None,
    }
}

/// The columns of a stored WorkItem, in the order the store selects them.
#[derive(Debug)]
pub struct WorkItemRow {
    /// the ULID text.
    pub id: String,
    pub title: String,
    pub content: Option<String>,
    /// the stored code.
    pub status: String,
    /// the stored code.
    pub priority: String,
    /// the stored code.
    pub source: String,
    /// a JSON array of strings.
    pub tags: String,
    pub created_at: i64,
    pub updated_at: i64,
    /// the ULID text, if any.
    pub parent_id: Option<String>,
    /// the bits of the `f64`, if any.
    pub latitude: Option<u64>,
    /// the bits of the `f64`, if any.
    pub longitude: Option<u64>,
    /// the ULID text, if any.
    pub gis_feature_id: Option<String>,
}

/// Whether `row` holds the columns that store `x`.
pub open spec fn is_work_item_row_of(row: WorkItemRow, x: WorkItem) -> bool {
    &&& row.id@ == ulid_text(x.id)
    &&& row.title == x.title
    &&& row.content == x.content
    &&& row.status@ == status_code(x.status)
    &&& row.priority@ == priority_code(x.priority)
    &&& row.source@ == source_code(x.source)
    &&& row.tags@ == json_text_of_strings(string_views(x.tags@)) && json_strings_of_text(row.tags@) == Some(string_views(x.tags@))
    &&& row.created_at == x.created_at
    &&& row.updated_at == x.updated_at
    &&& stores_opt_id(row.parent_id, x.parent_id)
    &&& row.latitude == x.latitude
    &&& row.longitude == x.longitude
    &&& stores_opt_id(row.gis_feature_id, x.gis_feature_id)
}

/// The first column of `row`, in the order in which they are read, that
/// should hold an id and does not; `None` when every id column is well formed.
pub open spec fn work_item_row_error(row: WorkItemRow) -> Option<usize> {
    if stored_id(row.id) is None {
        Some(0usize)
    } else if stored_opt_id(row.parent_id) is None {
        Some(9usize)
    } else if stored_opt_id(row.gis_feature_id) is None {
        Some(12usize)
    } else {
        None
    }
}

/// Whether `x` is the WorkItem read from a well-formed `row`.
pub open spec fn reads_work_item(row: WorkItemRow, x: WorkItem) -> bool {
    &&& Some(x.id) == stored_id(row.id)
    &&& x.title == row.title
    &&& x.content == row.content
    &&& x.status == status_of_code(row.status@)
    &&& x.priority == priority_of_code(row.priority@)
    &&& x.source == source_of_code(row.source@)
    &&& string_views(x.tags@) == stored_strings(row.tags@)
    &&& x.created_at == row.created_at
    &&& x.updated_at == row.updated_at
    &&& Some(x.parent_id) == stored_opt_id(row.parent_id)
    &&& x.latitude == row.latitude
    &&& x.longitude == row.longitude
    &&& Some(x.gis_feature_id) == stored_opt_id(row.gis_feature_id)
}

/// Whether two WorkItems hold the same values, strings compared by their characters.
pub open spec fn same_work_item(a: WorkItem, b: WorkItem) -> bool {
    &&& a.id == b.id
    &&& a.title@ == b.title@
    &&& same_opt_text(a.content, b.content)
    &&& a.status == b.status
    &&& a.priority == b.priority
    &&& a.source == b.source
    &&& string_views(a.tags@) == string_views(b.tags@)
    &&& a.created_at == b.created_at
    &&& a.updated_at == b.updated_at
    &&& a.parent_id == b.parent_id
    &&& a.latitude == b.latitude
    &&& a.longitude == b.longitude
    &&& a.gis_feature_id == b.gis_feature_id
}

/// The columns that store `x`.
pub fn work_item_to_row(x: &WorkItem) -> (r: WorkItemRow)
    ensures
        is_work_item_row_of(r, *x),
{
    WorkItemRow {
        id: ulid_to_text(x.id),
        title: x.title.clone(),
        content: copy_opt_text(&x.content),
        status: String::from_str(status_to_str(x.status)),
        priority: String::from_str(priority_to_str(x.priority)),
        source: String::from_str(source_to_str(x.source)),
        tags: to_json_array(x.tags.as_slice()),
        created_at: x.created_at,
        updated_at: x.updated_at,
        parent_id: opt_ulid_text(x.parent_id),
        latitude: x.latitude,
        longitude: x.longitude,
        gis_feature_id: opt_ulid_text(x.gis_feature_id),
    }
}

/// The WorkItem stored in `row`, or the first malformed id column.
pub fn work_item_from_row(row: WorkItemRow) -> (r: Result<WorkItem, ColumnError>)
    ensures
        match r {
            Ok(x) => work_item_row_error(row) is None && reads_work_item(row, x),
            Err(e) => work_item_row_error(row) == Some(e.column),
        },
{
    let id = match parse_ulid_col(row.id.as_str(), 0) {
        Ok(v) => v,
        Err(e) => return Err(e),
    };
    let parent_id = match parse_opt_ulid_col(&row.parent_id, 9) {
        Ok(v) => v,
        Err(e) => return Err(e),
    };
    let gis_feature_id = match parse_opt_ulid_col(&row.gis_feature_id, 12) {
        Ok(v) => v,
        Err(e) => return Err(e),
    };
    Ok(WorkItem {
        id,
        title: row.title,
        content: row.content,
        status: status_from_str(row.status.as_str()),
        priority: priority_from_str(row.priority.as_str()),
        source: source_from_str(row.source.as_str()),
        tags: from_json_array(row.tags.as_str()),
        created_at: row.created_at,
        updated_at: row.updated_at,
        parent_id,
        latitude: row.latitude,
        longitude: row.longitude,
        gis_feature_id,
    })
}

/// Reading back the row written for a WorkItem gives that WorkItem: the row has no
/// malformed id column, and the WorkItem read from it holds the same values.
pub proof fn lemma_work_item_row_roundtrip(x: WorkItem, row: WorkItemRow, y: WorkItem)
    requires
        is_work_item_row_of(row, x),
        reads_work_item(row, y),
    ensures
        work_item_row_error(row) is None,
        same_work_item(x, y),
{
    lemma_ulid_text_roundtrip(x.id);
    lemma_status_code_roundtrip(x.status);
    lemma_priority_code_roundtrip(x.priority);
    lemma_source_code_roundtrip(x.source);
    if let Some(v) = x.parent_id {
        lemma_ulid_text_roundtrip(v);
    }
    if let Some(v) = x.gis_feature_id {
        lemma_ulid_text_roundtrip(v);
    }
}

/// The columns of a stored Proposal, in the order the store selects them.
#[derive(Debug)]
pub struct ProposalRow {
    /// the ULID text.
    pub id: String,
    /// the ULID text.
    pub work_item_id: String,
    /// the stored code.
    pub analysis_type: String,
    pub content: String,
    pub created_at: i64,
}

/// Whether `row` holds the columns that store `x`.
pub open spec fn is_proposal_row_of(row: ProposalRow, x: Proposal) -> bool {
    &&& row.id@ == ulid_text(x.id)
    &&& row.work_item_id@ == ulid_text(x.work_item_id)
    &&& row.analysis_type@ == analysis_type_code(x.analysis_type)
    &&& row.content == x.content
    &&& row.created_at == x.created_at
}

/// The first column of `row`, in the order in which they are read, that
/// should hold an id and does not; `None` when every id column is well formed.
pub open spec fn proposal_row_error(row: ProposalRow) -> Option<usize> {
    if stored_id(row.id) is None {
        Some(0usize)
    } else if stored_id(row.work_item_id) is None {
        Some(1usize)
    } else {
        None
    }
}

/// Whether `x` is the Proposal read from a well-formed `row`.
pub open spec fn reads_proposal(row: ProposalRow, x: Proposal) -> bool {
    &&& Some(x.id) == stored_id(row.id)
    &&& Some(x.work_item_id) == stored_id(row.work_item_id)
    &&& x.analysis_type == analysis_type_of_code(row.analysis_type@)
    &&& x.content == row.content
    &&& x.created_at == row.created_at
}

/// Whether two Proposals hold the same values, strings compared by their characters.
pub open spec fn same_proposal(a: Proposal, b: Proposal) -> bool {
    &&& a.id == b.id
    &&& a.work_item_id == b.work_item_id
    &&& a.analysis_type == b.analysis_type
    &&& a.content@ == b.content@
    &&& a.created_at == b.created_at
}

/// The columns that store `x`.
pub fn proposal_to_row(x: &Proposal) -> (r: ProposalRow)
    ensures
        is_proposal_row_of(r, *x),
{
    ProposalRow {
        id: ulid_to_text(x.id),
        work_item_id: ulid_to_text(x.work_item_id),
        analysis_type: String::from_str(analysis_type_to_str(x.analysis_type)),
        content: x.content.clone(),
        created_at: x.created_at,
    }
}

/// The Proposal stored in `row`, or the first malformed id column.
pub fn proposal_from_row(row: ProposalRow) -> (r: Result<Proposal, ColumnError>)
    ensures
        match r {
            Ok(x) => proposal_row_error(row) is None && reads_proposal(row, x),
            Err(e) => proposal_row_error(row) == Some(e.column),
        },
{
    let id = match parse_ulid_col(row.id.as_str(), 0) {
        Ok(v) => v,
        Err(e) => return Err(e),
    };
    let work_item_id = match parse_ulid_col(row.work_item_id.as_str(), 1) {
        Ok(v) => v,
        Err(e) => return Err(e),
    };
    Ok(Proposal {
        id,
        work_item_id,
        analysis_type: analysis_type_from_str(row.analysis_type.as_str()),
        content: row.content,
        created_at: row.created_at,
    })
}

/// Reading back the row written for a Proposal gives that Proposal: the row has no
/// malformed id column, and the Proposal read from it holds the same values.
pub proof fn lemma_proposal_row_roundtrip(x: Proposal, row: ProposalRow, y: Proposal)
    requires
        is_proposal_row_of(row, x),
        reads_proposal(row, y),
    ensures
        proposal_row_error(row) is None,
        same_proposal(x, y),
{
    lemma_ulid_text_roundtrip(x.id);
    lemma_ulid_text_roundtrip(x.work_item_id);
    lemma_analysis_type_code_roundtrip(x.analysis_type);
}

/// The columns of a stored Attachment, in the order the store selects them.
#[derive(Debug)]
pub struct AttachmentRow {
    /// the ULID text.
    pub id: String,
    /// the ULID text.
    pub work_item_id: String,
    pub file_name: String,
    pub file_path: String,
    pub content_type: String,
    pub size: i64,
    pub created_at: i64,
}

/// Whether `row` holds the columns that store `x`.
pub open spec fn is_attachment_row_of(row: AttachmentRow, x: Attachment) -> bool {
    &&& row.id@ == ulid_text(x.id)
    &&& row.work_item_id@ == ulid_text(x.work_item_id)
    &&& row.file_name == x.file_name
    &&& row.file_path == x.file_path
    &&& row.content_type == x.content_type
    &&& row.size == x.size
    &&& row.created_at == x.created_at
}

/// The first column of `row`, in the order in which they are read, that
/// should hold an id and does not; `None` when every id column is well formed.
pub open spec fn attachment_row_error(row: AttachmentRow) -> Option<usize> {
    if stored_id(row.id) is None {
        Some(0usize)
    } else if stored_id(row.work_item_id) is None {
        Some(1usize)
    } else {
        None
    }
}

/// Whether `x` is the Attachment read from a well-formed `row`.
pub open spec fn reads_attachment(row: AttachmentRow, x: Attachment) -> bool {
    &&& Some(x.id) == stored_id(row.id)
    &&& Some(x.work_item_id) == stored_id(row.work_item_id)
    &&& x.file_name == row.file_name
    &&& x.file_path == row.file_path
    &&& x.content_type == row.content_type
    &&& x.size == row.size
    &&& x.created_at == row.created_at
}

/// Whether two Attachments hold the same values, strings compared by their characters.
pub open spec fn same_attachment(a: Attachment, b: Attachment) -> bool {
    &&& a.id == b.id
    &&& a.work_item_id == b.work_item_id
    &&& a.file_name@ == b.file_name@
    &&& a.file_path@ == b.file_path@
    &&& a.content_type@ == b.content_type@
    &&& a.size == b.size
    &&& a.created_at == b.created_at
}

/// The columns that store `x`.
pub fn attachment_to_row(x: &Attachment) -> (r: AttachmentRow)
    ensures
        is_attachment_row_of(r, *x),
{
    AttachmentRow {
        id: ulid_to_text(x.id),
        work_item_id: ulid_to_text(x.work_item_id),
        file_name: x.file_name.clone(),
        file_path: x.file_path.clone(),
        content_type: x.content_type.clone(),
        size: x.size,
        created_at: x.created_at,
    }
}

/// The Attachment stored in `row`, or the first malformed id column.
pub fn attachment_from_row(row: AttachmentRow) -> (r: Result<Attachment, ColumnError>)
    ensures
        match r {
            Ok(x) => attachment_row_error(row) is None && reads_attachment(row, x),
            Err(e) => attachment_row_error(row) == Some(e.column),
        },
{
    let id = match parse_ulid_col(row.id.as_str(), 0) {
        Ok(v) => v,
        Err(e) => return Err(e),
    };
    let work_item_id = match parse_ulid_col(row.work_item_id.as_str(), 1) {
        Ok(v) => v,
        Err(e) => return Err(e),
    };
    Ok(Attachment {
        id,
        work_item_id,
        file_name: row.file_name,
        file_path: row.file_path,
        content_type: row.content_type,
        size: row.size,
        created_at: row.created_at,
    })
}

/// Reading back the row written for a Attachment gives that Attachment: the row has no
/// malformed id column, and the Attachment read from it holds the same values.
pub proof fn lemma_attachment_row_roundtrip(x: Attachment, row: AttachmentRow, y: Attachment)
    requires
        is_attachment_row_of(row, x),
        reads_attachment(row, y),
    ensures
        attachment_row_error(row) is None,
        same_attachment(x, y),
{
    lemma_ulid_text_roundtrip(x.id);
    lemma_ulid_text_roundtrip(x.work_item_id);
}

/// The columns of a stored Contact, in the order the store selects them.
#[derive(Debug)]
pub struct ContactRow {
    /// the ULID text.
    pub id: String,
    pub name: String,
    pub email: Option<String>,
    pub phone: Option<String>,
    pub organization: Option<String>,
    pub created_at: i64,
}

/// Whether `row` holds the columns that store `x`.
pub open spec fn is_contact_row_of(row: ContactRow, x: Contact) -> bool {
    &&& row.id@ == ulid_text(x.id)
    &&& row.name == x.name
    &&& row.email == x.email
    &&& row.phone == x.phone
    &&& row.organization == x.organization
    &&& row.created_at == x.created_at
}

/// The first column of `row`, in the order in which they are read, that
/// should hold an id and does not; `None` when every id column is well formed.
pub open spec fn contact_row_error(row: ContactRow) -> Option<usize> {
    if stored_id(row.id) is None {
        Some(0usize)
    } else {
        None
    }
}

/// Whether `x` is the Contact read from a well-formed `row`.
pub open spec fn reads_contact(row: ContactRow, x: Contact) -> bool {
    &&& Some(x.id) == stored_id(row.id)
    &&& x.name == row.name
    &&& x.email == row.email
    &&& x.phone == row.phone
    &&& x.organization == row.organization
    &&& x.created_at == row.created_at
}

/// Whether two Contacts hold the same values, strings compared by their characters.
pub open spec fn same_contact(a: Contact, b: Contact) -> bool {
    &&& a.id == b.id
    &&& a.name@ == b.name@
    &&& same_opt_text(a.email, b.email)
    &&& same_opt_text(a.phone, b.phone)
    &&& same_opt_text(a.organization, b.organization)
    &&& a.created_at == b.created_at
}

/// The columns that store `x`.
pub fn contact_to_row(x: &Contact) -> (r: ContactRow)
    ensures
        is_contact_row_of(r, *x),
{
    ContactRow {
        id: ulid_to_text(x.id),
        name: x.name.clone(),
        email: copy_opt_text(&x.email),
        phone: copy_opt_text(&x.phone),
        organization: copy_opt_text(&x.organization),
        created_at: x.created_at,
    }
}

/// The Contact stored in `row`, or the first malformed id column.
pub fn contact_from_row(row: ContactRow) -> (r: Result<Contact, ColumnError>)
    ensures
        match r {
            Ok(x) => contact_row_error(row) is None && reads_contact(row, x),
            Err(e) => contact_row_error(row) == Some(e.column),
        },
{
    let id = match parse_ulid_col(row.id.as_str(), 0) {
        Ok(v) => v,
        Err(e) => return Err(e),
    };
    Ok(Contact {
        id,
        name: row.name,
        email: row.email,
        phone: row.phone,
        organization: row.organization,
        created_at: row.created_at,
    })
}

/// Reading back the row written for a Contact gives that Contact: the row has no
/// malformed id column, and the Contact read from it holds the same values.
pub proof fn lemma_contact_row_roundtrip(x: Contact, row: ContactRow, y: Contact)
    requires
        is_contact_row_of(row, x),
        reads_contact(row, y),
    ensures
        contact_row_error(row) is None,
        same_contact(x, y),
{
    lemma_ulid_text_roundtrip(x.id);
}

/// The columns of a stored GisFeature, in the order the store selects them.
#[derive(Debug)]
pub struct GisFeatureRow {
    /// the ULID text.
    pub id: String,
    /// the ULID text.
    pub layer_id: String,
    pub geometry_wkt: String,
    pub properties_json: Option<String>,
    /// the ULID text, if any.
    pub work_item_id: Option<String>,
    pub created_at: i64,
}

/// Whether `row` holds the columns that store `x`.
pub open spec fn is_gis_feature_row_of(row: GisFeatureRow, x: GisFeature) -> bool {
    &&& row.id@ == ulid_text(x.id)
    &&& row.layer_id@ == ulid_text(x.layer_id)
    &&& row.geometry_wkt == x.geometry_wkt
    &&& row.properties_json == x.properties_json
    &&& stores_opt_id(row.work_item_id, x.work_item_id)
    &&& row.created_at == x.created_at
}

/// The first column of `row`, in the order in which they are read, that
/// should hold an id and does not; `None` when every id column is well formed.
pub open spec fn gis_feature_row_error(row: GisFeatureRow) -> Option<usize> {
    if stored_opt_id(row.work_item_id) is None {
        Some(4usize)
    } else if stored_id(row.id) is None {
        Some(0usize)
    } else if stored_id(row.layer_id) is None {
        Some(1usize)
    } else {
        None
    }
}

/// Whether `x` is the GisFeature read from a well-formed `row`.
pub open spec fn reads_gis_feature(row: GisFeatureRow, x: GisFeature) -> bool {
    &&& Some(x.id) == stored_id(row.id)
    &&& Some(x.layer_id) == stored_id(row.layer_id)
    &&& x.geometry_wkt == row.geometry_wkt
    &&& x.properties_json == row.properties_json
    &&& Some(x.work_item_id) == stored_opt_id(row.work_item_id)
    &&& x.created_at == row.created_at
}

/// Whether two GisFeatures hold the same values, strings compared by their characters.
pub open spec fn same_gis_feature(a: GisFeature, b: GisFeature) -> bool {
    &&& a.id == b.id
    &&& a.layer_id == b.layer_id
    &&& a.geometry_wkt@ == b.geometry_wkt@
    &&& same_opt_text(a.properties_json, b.properties_json)
    &&& a.work_item_id == b.work_item_id
    &&& a.created_at == b.created_at
}

/// The columns that store `x`.
pub fn gis_feature_to_row(x: &GisFeature) -> (r: GisFeatureRow)
    ensures
        is_gis_feature_row_of(r, *x),
{
    GisFeatureRow {
        id: ulid_to_text(x.id),
        layer_id: ulid_to_text(x.layer_id),
        geometry_wkt: x.geometry_wkt.clone(),
        properties_json: copy_opt_text(&x.properties_json),
        work_item_id: opt_ulid_text(x.work_item_id),
        created_at: x.created_at,
    }
}

/// The GisFeature stored in `row`, or the first malformed id column.
pub fn gis_feature_from_row(row: GisFeatureRow) -> (r: Result<GisFeature, ColumnError>)
    ensures
        match r {
            Ok(x) => gis_feature_row_error(row) is None && reads_gis_feature(row, x),
            Err(e) => gis_feature_row_error(row) == Some(e.column),
        },
{
    let work_item_id = match parse_opt_ulid_col(&row.work_item_id, 4) {
        Ok(v) => v,
        Err(e) => return Err(e),
    };
    let id = match parse_ulid_col(row.id.as_str(), 0) {
        Ok(v) => v,
        Err(e) => return Err(e),
    };
    let layer_id = match parse_ulid_col(row.layer_id.as_str(), 1) {
        Ok(v) => v,
        Err(e) => return Err(e),
    };
    Ok(GisFeature {
        id,
        layer_id,
        geometry_wkt: row.geometry_wkt,
        properties_json: row.properties_json,
        work_item_id,
        created_at: row.created_at,
    })
}

/// Reading back the row written for a GisFeature gives that GisFeature: the row has no
/// malformed id column, and the GisFeature read from it holds the same values.
pub proof fn lemma_gis_feature_row_roundtrip(x: GisFeature, row: GisFeatureRow, y: GisFeature)
    requires
        is_gis_feature_row_of(row, x),
        reads_gis_feature(row, y),
    ensures
        gis_feature_row_error(row) is None,
        same_gis_feature(x, y),
{
    lemma_ulid_text_roundtrip(x.id);
    lemma_ulid_text_roundtrip(x.layer_id);
    if let Some(v) = x.work_item_id {
        lemma_ulid_text_roundtrip(v);
    }
}

/// The columns of a stored GisLayer, in the order the store selects them.
#[derive(Debug)]
pub struct GisLayerRow {
    /// the ULID text.
    pub id: String,
    pub name: String,
    /// the stored code.
    pub layer_type: String,
    pub source_path: Option<String>,
    /// 1 for true, 0 for false.
    pub visible: i64,
    /// the bits of the `f32`.
    pub opacity: u32,
    pub style_json: Option<String>,
    pub created_at: i64,
}

/// Whether `row` holds the columns that store `x`.
pub open spec fn is_gis_layer_row_of(row: GisLayerRow, x: GisLayer) -> bool {
    &&& row.id@ == ulid_text(x.id)
    &&& row.name == x.name
    &&& row.layer_type@ == layer_type_code(x.layer_type)
    &&& row.source_path == x.source_path
    &&& row.visible == if x.visible { 1i64 } else { 0i64 }
    &&& row.opacity == x.opacity
    &&& row.style_json == x.style_json
    &&& row.created_at == x.created_at
}

/// The first column of `row`, in the order in which they are read, that
/// should hold an id and does not; `None` when every id column is well formed.
pub open spec fn gis_layer_row_error(row: GisLayerRow) -> Option<usize> {
    if stored_id(row.id) is None {
        Some(0usize)
    } else {
        None
    }
}

/// Whether `x` is the GisLayer read from a well-formed `row`.
pub open spec fn reads_gis_layer(row: GisLayerRow, x: GisLayer) -> bool {
    &&& Some(x.id) == stored_id(row.id)
    &&& x.name == row.name
    &&& x.layer_type == layer_type_of_code(row.layer_type@)
    &&& x.source_path == row.source_path
    &&& x.visible == (row.visible != 0)
    &&& x.opacity == row.opacity
    &&& x.style_json == row.style_json
    &&& x.created_at == row.created_at
}

/// Whether two GisLayers hold the same values, strings compared by their characters.
pub open spec fn same_gis_layer(a: GisLayer, b: GisLayer) -> bool {
    &&& a.id == b.id
    &&& a.name@ == b.name@
    &&& a.layer_type == b.layer_type
    &&& same_opt_text(a.source_path, b.source_path)
    &&& a.visible == b.visible
    &&& a.opacity == b.opacity
    &&& same_opt_text(a.style_json, b.style_json)
    &&& a.created_at == b.created_at
}

/// The columns that store `x`.
pub fn gis_layer_to_row(x: &GisLayer) -> (r: GisLayerRow)
    ensures
        is_gis_layer_row_of(r, *x),
{
    GisLayerRow {
        id: ulid_to_text(x.id),
        name: x.name.clone(),
        layer_type: String::from_str(layer_type_to_str(x.layer_type)),
        source_path: copy_opt_text(&x.source_path),
        visible: if x.visible { 1 } else { 0 },
        opacity: x.opacity,
        style_json: copy_opt_text(&x.style_json),
        created_at: x.created_at,
    }
}

/// The GisLayer stored in `row`, or the first malformed id column.
pub fn gis_layer_from_row(row: GisLayerRow) -> (r: Result<GisLayer, ColumnError>)
    ensures
        match r {
            Ok(x) => gis_layer_row_error(row) is None && reads_gis_layer(row, x),
            Err(e) => gis_layer_row_error(row) == Some(e.column),
        },
{
    let id = match parse_ulid_col(row.id.as_str(), 0) {
        Ok(v) => v,
        Err(e) => return Err(e),
    };
    Ok(GisLayer {
        id,
        name: row.name,
        layer_type: layer_type_from_str(row.layer_type.as_str()),
        source_path: row.source_path,
        visible: row.visible != 0,
        opacity: row.opacity,
        style_json: row.style_json,
        created_at: row.created_at,
    })
}

/// Reading back the row written for a GisLayer gives that GisLayer: the row has no
/// malformed id column, and the GisLayer read from it holds the same values.
pub proof fn lemma_gis_layer_row_roundtrip(x: GisLayer, row: GisLayerRow, y: GisLayer)
    requires
        is_gis_layer_row_of(row, x),
        reads_gis_layer(row, y),
    ensures
        gis_layer_row_error(row) is None,
        same_gis_layer(x, y),
{
    lemma_ulid_text_roundtrip(x.id);
    lemma_layer_type_code_roundtrip(x.layer_type);
}

/// The columns of a stored MailAccount, in the order the store selects them.
#[derive(Debug)]
pub struct MailAccountRow {
    /// the ULID text.
    pub id: String,
    pub name: String,
    pub email: String,
    pub provider: String,
    pub imap_host: String,
    /// the port number.
    pub imap_port: i64,
    pub smtp_host: String,
    /// the port number.
    pub smtp_port: i64,
    /// 1 for true, 0 for false.
    pub use_oauth: i64,
    pub access_token: Option<String>,
    pub refresh_token: Option<String>,
    /// 1 for true, 0 for false.
    pub is_active: i64,
}

/// Whether `row` holds the columns that store `x`.
pub open spec fn is_mail_account_row_of(row: MailAccountRow, x: MailAccount) -> bool {
    &&& row.id@ == ulid_text(x.id)
    &&& row.name == x.name
    &&& row.email == x.email
    &&& row.provider == x.provider
    &&& row.imap_host == x.imap_host
    &&& row.imap_port == x.imap_port as i64
    &&& row.smtp_host == x.smtp_host
    &&& row.smtp_port == x.smtp_port as i64
    &&& row.use_oauth == if x.use_oauth { 1i64 } else { 0i64 }
    &&& row.access_token == x.access_token
    &&& row.refresh_token == x.refresh_token
    &&& row.is_active == if x.is_active { 1i64 } else { 0i64 }
}

/// The first column of `row`, in the order in which they are read, that
/// should hold an id and does not; `None` when every id column is well formed.
pub open spec fn mail_account_row_error(row: MailAccountRow) -> Option<usize> {
    if stored_id(row.id) is None {
        Some(0usize)
    } else {
        None
    }
}

/// Whether `x` is the MailAccount read from a well-formed `row`.
pub open spec fn reads_mail_account(row: MailAccountRow, x: MailAccount) -> bool {
    &&& Some(x.id) == stored_id(row.id)
    &&& x.name == row.name
    &&& x.email == row.email
    &&& x.provider == row.provider
    &&& x.imap_host == row.imap_host
    &&& x.imap_port == row.imap_port as u16
    &&& x.smtp_host == row.smtp_host
    &&& x.smtp_port == row.smtp_port as u16
    &&& x.use_oauth == (row.use_oauth != 0)
    &&& x.access_token == row.access_token
    &&& x.refresh_token == row.refresh_token
    &&& x.is_active == (row.is_active != 0)
}

/// Whether two MailAccounts hold the same values, strings compared by their characters.
pub open spec fn same_mail_account(a: MailAccount, b: MailAccount) -> bool {
    &&& a.id == b.id
    &&& a.name@ == b.name@
    &&& a.email@ == b.email@
    &&& a.provider@ == b.provider@
    &&& a.imap_host@ == b.imap_host@
    &&& a.imap_port == b.imap_port
    &&& a.smtp_host@ == b.smtp_host@
    &&& a.smtp_port == b.smtp_port
    &&& a.use_oauth == b.use_oauth
    &&& same_opt_text(a.access_token, b.access_token)
    &&& same_opt_text(a.refresh_token, b.refresh_token)
    &&& a.is_active == b.is_active
}

/// The columns that store `x`.
pub fn mail_account_to_row(x: &MailAccount) -> (r: MailAccountRow)
    ensures
        is_mail_account_row_of(r, *x),
{
    MailAccountRow {
        id: ulid_to_text(x.id),
        name: x.name.clone(),
        email: x.email.clone(),
        provider: x.provider.clone(),
        imap_host: x.imap_host.clone(),
        imap_port: x.imap_port as i64,
        smtp_host: x.smtp_host.clone(),
        smtp_port: x.smtp_port as i64,
        use_oauth: if x.use_oauth { 1 } else { 0 },
        access_token: copy_opt_text(&x.access_token),
        refresh_token: copy_opt_text(&x.refresh_token),
        is_active: if x.is_active { 1 } else { 0 },
    }
}

/// The MailAccount stored in `row`, or the first malformed id column.
pub fn mail_account_from_row(row: MailAccountRow) -> (r: Result<MailAccount, ColumnError>)
    ensures
        match r {
            Ok(x) => mail_account_row_error(row) is None && reads_mail_account(row, x),
            Err(e) => mail_account_row_error(row) == Some(e.column),
        },
{
    let id = match parse_ulid_col(row.id.as_str(), 0) {
        Ok(v) => v,
        Err(e) => return Err(e),
    };
    Ok(MailAccount {
        id,
        name: row.name,
        email: row.email,
        provider: row.provider,
        imap_host: row.imap_host,
        imap_port: row.imap_port as u16,
        smtp_host: row.smtp_host,
        smtp_port: row.smtp_port as u16,
        use_oauth: row.use_oauth != 0,
        access_token: row.access_token,
        refresh_token: row.refresh_token,
        is_active: row.is_active != 0,
    })
}

/// Reading back the row written for a MailAccount gives that MailAccount: the row has no
/// malformed id column, and the MailAccount read from it holds the same values.
pub proof fn lemma_mail_account_row_roundtrip(x: MailAccount, row: MailAccountRow, y: MailAccount)
    requires
        is_mail_account_row_of(row, x),
        reads_mail_account(row, y),
    ensures
        mail_account_row_error(row) is None,
        same_mail_account(x, y),
{
    lemma_ulid_text_roundtrip(x.id);
}

/// The columns of a stored MailMessage, in the order the store selects them.
#[derive(Debug)]
pub struct MailMessageRow {
    /// the ULID text.
    pub id: String,
    /// the ULID text.
    pub account_id: String,
    pub message_id: String,
    pub subject: String,
    pub from_address: String,
    /// a JSON array of strings.
    pub to_addresses: String,
    pub body_text: Option<String>,
    pub body_html: Option<String>,
    pub received_at: i64,
    /// 1 for true, 0 for false.
    pub is_read: i64,
    /// the ULID text, if any.
    pub work_item_id: Option<String>,
}

/// Whether `row` holds the columns that store `x`.
pub open spec fn is_mail_message_row_of(row: MailMessageRow, x: MailMessage) -> bool {
    &&& row.id@ == ulid_text(x.id)
    &&& row.account_id@ == ulid_text(x.account_id)
    &&& row.message_id == x.message_id
    &&& row.subject == x.subject
    &&& row.from_address == x.from_address
    &&& row.to_addresses@ == json_text_of_strings(string_views(x.to_addresses@)) && json_strings_of_text(row.to_addresses@) == Some(string_views(x.to_addresses@))
    &&& row.body_text == x.body_text
    &&& row.body_html == x.body_html
    &&& row.received_at == x.received_at
    &&& row.is_read == if x.is_read { 1i64 } else { 0i64 }
    &&& stores_opt_id(row.work_item_id, x.work_item_id)
}

/// The first column of `row`, in the order in which they are read, that
/// should hold an id and does not; `None` when every id column is well formed.
pub open spec fn mail_message_row_error(row: MailMessageRow) -> Option<usize> {
    if stored_opt_id(row.work_item_id) is None {
        Some(10usize)
    } else if stored_id(row.id) is None {
        Some(0usize)
    } else if stored_id(row.account_id) is None {
        Some(1usize)
    } else {
        None
    }
}

/// Whether `x` is the MailMessage read from a well-formed `row`.
pub open spec fn reads_mail_message(row: MailMessageRow, x: MailMessage) -> bool {
    &&& Some(x.id) == stored_id(row.id)
    &&& Some(x.account_id) == stored_id(row.account_id)
    &&& x.message_id == row.message_id
    &&& x.subject == row.subject
    &&& x.from_address == row.from_address
    &&& string_views(x.to_addresses@) == stored_strings(row.to_addresses@)
    &&& x.body_text == row.body_text
    &&& x.body_html == row.body_html
    &&& x.received_at == row.received_at
    &&& x.is_read == (row.is_read != 0)
    &&& Some(x.work_item_id) == stored_opt_id(row.work_item_id)
}

/// Whether two MailMessages hold the same values, strings compared by their characters.
pub open spec fn same_mail_message(a: MailMessage, b: MailMessage) -> bool {
    &&& a.id == b.id
    &&& a.account_id == b.account_id
    &&& a.message_id@ == b.message_id@
    &&& a.subject@ == b.subject@
    &&& a.from_address@ == b.from_address@
    &&& string_views(a.to_addresses@) == string_views(b.to_addresses@)
    &&& same_opt_text(a.body_text, b.body_text)
    &&& same_opt_text(a.body_html, b.body_html)
    &&& a.received_at == b.received_at
    &&& a.is_read == b.is_read
    &&& a.work_item_id == b.work_item_id
}

/// The columns that store `x`.
pub fn mail_message_to_row(x: &MailMessage) -> (r: MailMessageRow)
    ensures
        is_mail_message_row_of(r, *x),
{
    MailMessageRow {
        id: ulid_to_text(x.id),
        account_id: ulid_to_text(x.account_id),
        message_id: x.message_id.clone(),
        subject: x.subject.clone(),
        from_address: x.from_address.clone(),
        to_addresses: to_json_array(x.to_addresses.as_slice()),
        body_text: copy_opt_text(&x.body_text),
        body_html: copy_opt_text(&x.body_html),
        received_at: x.received_at,
        is_read: if x.is_read { 1 } else { 0 },
        work_item_id: opt_ulid_text(x.work_item_id),
    }
}

/// The MailMessage stored in `row`, or the first malformed id column.
pub fn mail_message_from_row(row: MailMessageRow) -> (r: Result<MailMessage, ColumnError>)
    ensures
        match r {
            Ok(x) => mail_message_row_error(row) is None && reads_mail_message(row, x),
            Err(e) => mail_message_row_error(row) == Some(e.column),
        },
{
    let work_item_id = match parse_opt_ulid_col(&row.work_item_id, 10) {
        Ok(v) => v,
        Err(e) => return Err(e),
    };
    let id = match parse_ulid_col(row.id.as_str(), 0) {
        Ok(v) => v,
        Err(e) => return Err(e),
    };
    let account_id = match parse_ulid_col(row.account_id.as_str(), 1) {
        Ok(v) => v,
        Err(e) => return Err(e),
    };
    Ok(MailMessage {
        id,
        account_id,
        message_id: row.message_id,
        subject: row.subject,
        from_address: row.from_address,
        to_addresses: from_json_array(row.to_addresses.as_str()),
        body_text: row.body_text,
        body_html: row.body_html,
        received_at: row.received_at,
        is_read: row.is_read != 0,
        work_item_id,
    })
}

/// Reading back the row written for a MailMessage gives that MailMessage: the row has no
/// malformed id column, and the MailMessage read from it holds the same values.
pub proof fn lemma_mail_message_row_roundtrip(x: MailMessage, row: MailMessageRow, y: MailMessage)
    requires
        is_mail_message_row_of(row, x),
        reads_mail_message(row, y),
    ensures
        mail_message_row_error(row) is None,
        same_mail_message(x, y),
{
    lemma_ulid_text_roundtrip(x.id);
    lemma_ulid_text_roundtrip(x.account_id);
    if let Some(v) = x.work_item_id {
        lemma_ulid_text_roundtrip(v);
    }
}

/// The columns of a stored AiProfile, in the order the store selects them.
#[derive(Debug)]
pub struct AiProfileRow {
    /// the ULID text.
    pub id: String,
    pub name: String,
    pub provider: String,
    pub api_key: String,
    pub model: String,
    pub base_url: String,
    /// 1 for true, 0 for false.
    pub is_default: i64,
    /// the limit, if any.
    pub max_tokens: Option<i64>,
    /// the bits of the `f32`, if any.
    pub temperature: Option<u32>,
}

/// Whether `row` holds the columns that store `x`.
pub open spec fn is_ai_profile_row_of(row: AiProfileRow, x: AiProfile) -> bool {
    &&& row.id@ == ulid_text(x.id)
    &&& row.name == x.name
    &&& row.provider == x.provider
    &&& row.api_key == x.api_key
    &&& row.model == x.model
    &&& row.base_url == x.base_url
    &&& row.is_default == if x.is_default { 1i64 } else { 0i64 }
    &&& row.max_tokens == match x.max_tokens { Some(v) => Some(v as i64), None => None::<i64> }
    &&& row.temperature == x.temperature
}

/// The first column of `row`, in the order in which they are read, that
/// should hold an id and does not; `None` when every id column is well formed.
pub open spec fn ai_profile_row_error(row: AiProfileRow) -> Option<usize> {
    if stored_id(row.id) is None {
        Some(0usize)
    } else {
        None
    }
}

/// Whether `x` is the AiProfile read from a well-formed `row`.
pub open spec fn reads_ai_profile(row: AiProfileRow, x: AiProfile) -> bool {
    &&& Some(x.id) == stored_id(row.id)
    &&& x.name == row.name
    &&& x.provider == row.provider
    &&& x.api_key == row.api_key
    &&& x.model == row.model
    &&& x.base_url == row.base_url
    &&& x.is_default == (row.is_default != 0)
    &&& x.max_tokens == match row.max_tokens { Some(v) => Some(v as u32), None => None::<u32> }
    &&& x.temperature == row.temperature
}

/// Whether two AiProfiles hold the same values, strings compared by their characters.
pub open spec fn same_ai_profile(a: AiProfile, b: AiProfile) -> bool {
    &&& a.id == b.id
    &&& a.name@ == b.name@
    &&& a.provider@ == b.provider@
    &&& a.api_key@ == b.api_key@
    &&& a.model@ == b.model@
    &&& a.base_url@ == b.base_url@
    &&& a.is_default == b.is_default
    &&& a.max_tokens == b.max_tokens
    &&& a.temperature == b.temperature
}

/// The columns that store `x`.
pub fn ai_profile_to_row(x: &AiProfile) -> (r: AiProfileRow)
    ensures
        is_ai_profile_row_of(r, *x),
{
    AiProfileRow {
        id: ulid_to_text(x.id),
        name: x.name.clone(),
        provider: x.provider.clone(),
        api_key: x.api_key.clone(),
        model: x.model.clone(),
        base_url: x.base_url.clone(),
        is_default: if x.is_default { 1 } else { 0 },
        max_tokens: opt_u32_column(x.max_tokens),
        temperature: x.temperature,
    }
}

/// The AiProfile stored in `row`, or the first malformed id column.
pub fn ai_profile_from_row(row: AiProfileRow) -> (r: Result<AiProfile, ColumnError>)
    ensures
        match r {
            Ok(x) => ai_profile_row_error(row) is None && reads_ai_profile(row, x),
            Err(e) => ai_profile_row_error(row) == Some(e.column),
        },
{
    let id = match parse_ulid_col(row.id.as_str(), 0) {
        Ok(v) => v,
        Err(e) => return Err(e),
    };
    Ok(AiProfile {
        id,
        name: row.name,
        provider: row.provider,
        api_key: row.api_key,
        model: row.model,
        base_url: row.base_url,
        is_default: row.is_default != 0,
        max_tokens: opt_u32_of_column(row.max_tokens),
        temperature: row.temperature,
    })
}

/// Reading back the row written for a AiProfile gives that AiProfile: the row has no
/// malformed id column, and the AiProfile read from it holds the same values.
pub proof fn lemma_ai_profile_row_roundtrip(x: AiProfile, row: AiProfileRow, y: AiProfile)
    requires
        is_ai_profile_row_of(row, x),
        reads_ai_profile(row, y),
    ensures
        ai_profile_row_error(row) is None,
        same_ai_profile(x, y),
{
    lemma_ulid_text_roundtrip(x.id);
}

} // verus!
