//! Domain layer: entities, enums, value objects and errors.

pub mod egress_policy;
pub mod entities;
pub mod enums;
pub mod error;

pub use egress_policy::EgressPolicy;
pub use entities::{
    AiProfile, Attachment, Contact, GisFeature, GisLayer, Identity, IdentityAlias, MailAccount,
    MailMessage, Proposal, WorkEvent, WorkItem,
};
pub use enums::{AnalysisType, GeometryType, LayerType, Priority, Source, WorkItemStatus};
pub use error::DomainError;
