//! Account management for a directory service: the naming convention of
//! account entries, the salted credential format, the account record, and
//! the session's decisions over the directory's replies.

pub mod dn;
pub mod protocol;
pub mod session;
pub mod ssha;
pub mod user;

pub use dn::{build_dn, user_dn, Groups};
pub use protocol::{Attribute, Entry, LdapError, Modification, Reply, Request, Scope};
pub use session::{Exchange, Ldap, Pending, Step};
pub use ssha::{generate_ssha, ssha_with_salt};
pub use user::User;
