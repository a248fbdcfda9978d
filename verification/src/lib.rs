//! Bulk reverse-DNS resolution: the query name of an address, the PTR and
//! CNAME rules applied to what a nameserver answers, the rotation of a pool of
//! nameservers, and the plan that pairs every address with a nameserver.
//!
//! The library never touches the network. A query is made by a client that the
//! caller supplies, a function from a name to a [`QueryReply`]; everything
//! that is decided about a reply is decided here.

pub mod address;
pub mod error;
pub mod pool;
pub mod reply;
pub mod report;
pub mod resolver;
pub mod scheduler;
pub mod text;
pub mod reverse_name;

pub use address::{Endpoint, IpAddress, IpToResolve};
pub use error::{ConfigError, FailureKind, ResolvingError};
pub use reply::{Answer, QueryReply};
pub use report::{backoff_millis, report, Report, Stream, BACKOFF_MILLIS};
pub use pool::NameserverPool;
pub use resolver::{
    advance, follow, get_ptr, ptr_resolve, Chase, ResolvedResult, Step, MAX_CNAME_HOPS,
};
pub use reverse_name::build_reverse_name;
pub use scheduler::{assign_servers, plan, resolve_all, resolve_item, ResolutionOutcome};
