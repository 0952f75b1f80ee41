use vstd::prelude::*;

verus! {

/// A snapshot of the declarative desired-state resource, as delivered by
/// the watch mechanism. Only the fields the reconciliation logic reads are
/// modeled: identity, the vault item path, the target secret type tag,
/// whether a deletion timestamp is present, and the finalizer set.
#[derive(Clone, Debug, PartialEq)]
pub struct BitwardenSecret {
    /// Unique name of the resource.
    pub name: String,
    /// Namespace, absent when the resource carries none.
    pub namespace: Option<String>,
    /// Stable unique identifier assigned by the cluster, absent on a
    /// malformed snapshot.
    pub uid: Option<String>,
    /// Path of the vault item holding the secret material.
    pub vault_path: String,
    /// Type tag for the target secret to materialize.
    pub type_: String,
    /// Whether deletion of the resource has been requested.
    pub has_deletion_timestamp: bool,
    /// The finalizer tokens currently recorded on the resource.
    pub finalizers: Option<Vec<String>>,
}

/// The action a reconciliation takes for an observed snapshot.
#[derive(Clone, Copy, Debug, PartialEq, Eq, Structural)]
pub enum BitwardenSecretAction {
    /// Register the finalizer, fetch the vault item and apply the target
    /// secret.
    Create,
    /// Delete the target secret, then remove the finalizer.
    Delete,
    /// Nothing to do beyond a periodic re-check.
    NoOp,
}

/// Whether the snapshot's finalizer set is empty or absent.
pub open spec fn spec_finalizers_empty(r: BitwardenSecret) -> bool {
    match r.finalizers {
        Option::None => true,
        Option::Some(fs) => fs@.len() == 0,
    }
}

/// The classification rule: a requested deletion always wins; a snapshot
/// without finalizers is freshly observed and must be provisioned; any
/// other snapshot needs no work.
pub open spec fn spec_action(r: BitwardenSecret) -> BitwardenSecretAction {
    if r.has_deletion_timestamp {
        BitwardenSecretAction::Delete
    } else if spec_finalizers_empty(r) {
        BitwardenSecretAction::Create
    } else {
        BitwardenSecretAction::NoOp
    }
}

/// Classifies a snapshot into the action the reconciliation must take.
pub fn determine_action(bitwarden_secret: &BitwardenSecret) -> (action: BitwardenSecretAction)
    ensures
        action == spec_action(*bitwarden_secret),
        bitwarden_secret.has_deletion_timestamp ==> action == BitwardenSecretAction::Delete,
        !bitwarden_secret.has_deletion_timestamp && spec_finalizers_empty(*bitwarden_secret)
            ==> action == BitwardenSecretAction::Create,
        !bitwarden_secret.has_deletion_timestamp && !spec_finalizers_empty(*bitwarden_secret)
            ==> action == BitwardenSecretAction::NoOp,
{
    if bitwarden_secret.has_deletion_timestamp {
        BitwardenSecretAction::Delete
    } else {
        let empty = match &bitwarden_secret.finalizers {
            Option::None => true,
            Option::Some(fs) => fs.len() == 0,
        };
        if empty {
            BitwardenSecretAction::Create
        } else {
            BitwardenSecretAction::NoOp
        }
    }
}

/// The namespace the resource's dependent objects live in: its own
/// namespace, or the cluster default when it carries none.
pub open spec fn spec_namespace_or_default(r: BitwardenSecret) -> Seq<char> {
    match r.namespace {
        Option::Some(ns) => ns@,
        Option::None => "default"@,
    }
}

impl BitwardenSecret {
    /// The namespace to operate in for this resource.
    pub fn namespace_or_default(&self) -> (ns: String)
        ensures
            ns@ == spec_namespace_or_default(*self),
    {
        match &self.namespace {
            Option::Some(ns) => ns.clone(),
            Option::None => "default".to_owned(),
        }
    }
}

} // verus!
