//! The shapes that answers of the API are decoded to, in one place.

pub use crate::clients::organizations::{GitHubPlanInfo, Organization, OrganizationSummary};
pub use crate::clients::repositories::{
    Repository, RepositoryLicense, RepositoryOwner, RepositorySummary,
};
pub use crate::clients::root::RootDocument;
