//! Access-control data structures: security identifiers (SIDs), access-control
//! entries (ACEs), discretionary access-control lists (DACLs) and security
//! descriptors, modelled on the packed binary layouts the operating system
//! uses, with verified parsing, iteration and rebuild-on-insert.

pub mod ace;
pub mod acl;
pub mod decimal;
pub mod mask;
pub mod security_descriptor;
pub mod sid;

pub use ace::AccessControlEntry;
pub use ace::ExplicitAccess;
pub use acl::AccessControlEntries;
pub use acl::AccessControlList;
pub use acl::CreateAclError;
pub use acl::MalformedAclError;
pub use mask::AccessInheritance;
pub use mask::AccessMask;
pub use mask::AccessMode;
pub use security_descriptor::SecurityDescriptor;
pub use sid::CreateSecurityIdError;
pub use sid::SecurityId;
pub use sid::WellKnownSidType;
