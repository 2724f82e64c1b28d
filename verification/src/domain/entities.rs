//! Domain entities of WorkItemFlow.
//!
//! Ids are ULIDs held as their 128-bit value; floating-point fields are held as
//! the bits of the float, which the application converts at its edge.

use vstd::prelude::*;

use crate::domain::enums::{AnalysisType, LayerType, Priority, Source, WorkItemStatus};

verus! {
/// A work item, the central entity of WorkItemFlow.
#[derive(Debug, Clone)]
pub struct WorkItem {
    pub id: u128,
    pub title: String,
    pub content: Option<String>,
    pub status: WorkItemStatus,
    pub priority: Priority,
    pub source: Source,
    pub tags: Vec<String>,
    /// Unix timestamp (seconds).
    pub created_at: i64,
    /// Unix timestamp (seconds).
    pub updated_at: i64,
    pub parent_id: Option<u128>,
    /// Latitude in degrees, held as the bits of its `f64` (`f64::to_bits`).
    pub latitude: Option<u64>,
    /// Longitude in degrees, held as the bits of its `f64` (`f64::to_bits`).
    pub longitude: Option<u64>,
    pub gis_feature_id: Option<u128>,
}

/// An AI-generated proposal or analysis result for a work item.
#[derive(Debug, Clone)]
pub struct Proposal {
    pub id: u128,
    pub work_item_id: u128,
    pub analysis_type: AnalysisType,
    pub content: String,
    /// Unix timestamp (seconds).
    pub created_at: i64,
}

/// A file attachment associated with a work item.
#[derive(Debug, Clone)]
pub struct Attachment {
    pub id: u128,
    pub work_item_id: u128,
    pub file_name: String,
    pub file_path: String,
    pub content_type: String,
    pub size: i64,
    /// Unix timestamp (seconds).
    pub created_at: i64,
}

/// A person or organisation contact.
#[derive(Debug, Clone)]
pub struct Contact {
    pub id: u128,
    pub name: String,
    pub email: Option<String>,
    pub phone: Option<String>,
    pub organization: Option<String>,
    /// Unix timestamp (seconds).
    pub created_at: i64,
}

/// A geographic feature belonging to a GIS layer.
#[derive(Debug, Clone)]
pub struct GisFeature {
    pub id: u128,
    pub layer_id: u128,
    /// Geometry encoded as Well-Known Text (WKT).
    pub geometry_wkt: String,
    /// Arbitrary feature properties serialised as JSON.
    pub properties_json: Option<String>,
    pub work_item_id: Option<u128>,
    /// Unix timestamp (seconds).
    pub created_at: i64,
}

/// A GIS map layer definition.
#[derive(Debug, Clone)]
pub struct GisLayer {
    pub id: u128,
    pub name: String,
    pub layer_type: LayerType,
    pub source_path: Option<String>,
    pub visible: bool,
    /// Opacity in the range `[0.0, 1.0]`, held as the bits of its `f32` (`f32::to_bits`).
    pub opacity: u32,
    /// Serialised style definition (provider-specific JSON).
    pub style_json: Option<String>,
    /// Unix timestamp (seconds).
    pub created_at: i64,
}

/// A configured mail account used to ingest emails.
#[derive(Debug, Clone)]
pub struct MailAccount {
    pub id: u128,
    pub name: String,
    pub email: String,
    pub provider: String,
    pub imap_host: String,
    pub imap_port: u16,
    pub smtp_host: String,
    pub smtp_port: u16,
    pub use_oauth: bool,
    pub access_token: Option<String>,
    pub refresh_token: Option<String>,
    pub is_active: bool,
}

/// An email message ingested from a mail account.
#[derive(Debug, Clone)]
pub struct MailMessage {
    pub id: u128,
    pub account_id: u128,
    /// The message-id header value from the email.
    pub message_id: String,
    pub subject: String,
    pub from_address: String,
    pub to_addresses: Vec<String>,
    pub body_text: Option<String>,
    pub body_html: Option<String>,
    /// Unix timestamp (seconds).
    pub received_at: i64,
    pub is_read: bool,
    pub work_item_id: Option<u128>,
}

/// An AI provider configuration profile.
#[derive(Debug, Clone)]
pub struct AiProfile {
    pub id: u128,
    pub name: String,
    pub provider: String,
    pub api_key: String,
    pub model: String,
    pub base_url: String,
    pub is_default: bool,
    pub max_tokens: Option<u32>,
    /// Sampling temperature, held as the bits of its `f32` (`f32::to_bits`).
    pub temperature: Option<u32>,
}

/// An auditable event attached to a work item.
#[derive(Debug, Clone)]
pub struct WorkEvent {
    pub id: u128,
    pub work_item_id: u128,
    pub event_type: String,
    pub content: Option<String>,
    /// Unix timestamp (seconds).
    pub created_at: i64,
}

/// The authenticated user identity.
#[derive(Debug, Clone)]
pub struct Identity {
    pub id: u128,
    pub name: String,
    pub email: String,
}

/// An alias email address linked to an identity.
#[derive(Debug, Clone)]
pub struct IdentityAlias {
    pub identity_id: u128,
    pub alias_email: String,
}

} // verus!
