use vstd::prelude::*;
use crate::resource::BitwardenSecret;

verus! {

/// A back-reference from the target secret to its owning desired-state
/// resource, used by the cluster's garbage collector for cascade
/// deletion.
#[derive(Clone, Debug, PartialEq)]
pub struct OwnerReference {
    /// API version of the owning resource kind.
    pub api_version: String,
    /// Kind of the owning resource.
    pub kind: String,
    /// Name of the owning resource.
    pub name: String,
    /// Stable unique identifier of the owning resource; the reference is
    /// only trustworthy while this matches the live resource.
    pub uid: String,
    /// Whether the owner may only be deleted once this dependent is gone.
    pub block_owner_deletion: Option<bool>,
    /// Whether the owner is the managing controller of this dependent.
    pub controller: Option<bool>,
}

/// The materialized artifact: a secret object to be applied in the
/// cluster. It carries exactly one owner reference, embedded structurally.
#[derive(Clone, Debug, PartialEq)]
pub struct TargetSecret {
    /// Name, mirroring the desired-state resource's name.
    pub name: String,
    /// Namespace the secret lives in.
    pub namespace: String,
    /// Type tag of the secret.
    pub type_: String,
    /// The key/value payload fetched from the vault.
    pub string_data: Vec<(String, String)>,
    /// Labels applied to the secret.
    pub labels: Vec<(String, String)>,
    /// The single owner reference back to the desired-state resource.
    pub owner_reference: OwnerReference,
}

/// Whether `o` is the owner reference this controller records for
/// `resource`: it points back at the resource's own kind, carries the
/// resource's name and live UID, and blocks owner deletion. Absent
/// exactly when the snapshot carries no UID.
pub open spec fn spec_owner_reference_for(o: Option<OwnerReference>, r: BitwardenSecret) -> bool {
    match (o, r.uid) {
        (Option::None, Option::None) => true,
        (Option::Some(o), Option::Some(uid)) => o.api_version@ == "tomjo.net/v1"@
            && o.kind@ == "BitwardenSecret"@
            && o.name == r.name
            && o.uid == uid
            && o.block_owner_deletion == Option::Some(true)
            && o.controller is None,
        _ => false,
    }
}

/// Builds the owner reference for a desired-state resource snapshot, or
/// nothing when the snapshot carries no UID (a malformed snapshot, which
/// the reconciliation surfaces as a user-input error before any secret is
/// created).
pub fn owner_reference(resource: &BitwardenSecret) -> (o: Option<OwnerReference>)
    ensures
        spec_owner_reference_for(o, *resource),
        o is Some <==> resource.uid is Some,
{
    match &resource.uid {
        Option::None => Option::None,
        Option::Some(uid) => Option::Some(
            OwnerReference {
                api_version: "tomjo.net/v1".to_owned(),
                kind: "BitwardenSecret".to_owned(),
                name: resource.name.clone(),
                uid: uid.clone(),
                block_owner_deletion: Option::Some(true),
                controller: Option::None,
            },
        ),
    }
}

/// Whether `labels` is the label set this controller stamps on a target
/// secret owned by a resource named `name`.
pub open spec fn spec_default_labels(labels: Vec<(String, String)>, name: String) -> bool {
    labels@.len() == 1 && labels@[0].0@ == "app"@ && labels@[0].1 == name
}

/// The labels applied to a target secret: a single application label
/// carrying the owning resource's name.
pub fn default_labels(name: String) -> (labels: Vec<(String, String)>)
    ensures
        spec_default_labels(labels, name),
{
    let mut labels: Vec<(String, String)> = Vec::new();
    labels.push(("app".to_owned(), name));
    labels
}

/// Deterministically builds the target secret from fetched key/value
/// material and ownership metadata. The result carries exactly one owner
/// reference — the caller's — and exactly the given payload; submission
/// to the cluster is the caller's step, and a conflicting pre-existing
/// secret surfaces there as an error.
pub fn create_secret(
    owner_ref: OwnerReference,
    name: String,
    namespace: String,
    type_: String,
    secret_keys: Vec<(String, String)>,
    labels: Vec<(String, String)>,
) -> (s: TargetSecret)
    ensures
        s == (TargetSecret {
            name,
            namespace,
            type_,
            string_data: secret_keys,
            labels,
            owner_reference: owner_ref,
        }),
{
    TargetSecret { name, namespace, type_, string_data: secret_keys, labels, owner_reference: owner_ref }
}

/// Decides the target-secret deletion step. The caller reports whether
/// the secret still exists — it may already have been garbage-collected
/// through its owner reference — and deletion is issued exactly when it
/// does; otherwise the cleanup succeeds trivially.
pub fn delete_secret(exists: bool) -> (delete: bool)
    ensures
        delete == exists,
{
    exists
}

} // verus!
