//! Reconciliation core of a controller that keeps a cluster-local secret
//! synchronized with secret material held in an external vault, using a
//! declarative desired-state resource as the record of intent.
//!
//! The library holds the decision logic: classification of a resource
//! snapshot into an action, the finalizer-based deletion-ordering protocol,
//! the deterministic construction of the target secret, and the
//! reconciliation state machine that sequences the external calls. The
//! calls themselves (cluster API, vault) are performed by the surrounding
//! program, which drives the state machine with their outcomes.

pub mod resource;
pub mod finalizer;
pub mod secret;
pub mod machine;
