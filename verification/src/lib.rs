//! A leader-election client for a Kubernetes-style control plane.
//!
//! A process embedding this library competes with other replicas to become
//! the sole leader for a named workload. Coordination happens through
//! optimistic updates to a single shared lock resource; the control plane
//! arbitrates concurrent writes by resource-version conflict detection.
//!
//! The election protocol itself — building candidate records, deciding when
//! a foreign lease has expired, preserving acquisition times across
//! renewals, counting handovers, health checking, and de-duplicating
//! leader-change notifications — is verified here. The asynchronous driving
//! loop and the network transport live outside the library and feed it
//! plain values.

pub mod builder;
pub mod elector;
pub mod lease;
pub mod lock;
pub mod record;
pub mod wait;

pub use builder::ConfigError;
pub use builder::ElectorBuilder;
pub use elector::Callbacks;
pub use elector::Config;
pub use elector::Elector;
pub use elector::ElectorError;
pub use lease::LeaseSpec;
pub use lock::Lock;
pub use lock::LockError;
pub use lock::LockKind;
pub use lock::MemoryLock;
pub use record::ElectionRecord;
pub use record::RecordView;
pub use wait::Backoff;
pub use wait::Jitter;
pub use wait::Repeat;
