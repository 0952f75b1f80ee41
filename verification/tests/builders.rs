use bw_operator::resource::{determine_action, BitwardenSecret, BitwardenSecretAction};
use bw_operator::finalizer::{
    add_finalizer, apply_finalizer_patch, delete_finalizer, finalizer_token, FinalizerPatch,
};
use bw_operator::secret::{create_secret, default_labels, delete_secret, owner_reference, OwnerReference};

fn snapshot(deletion: bool, finalizers: Option<Vec<String>>) -> BitwardenSecret {
    BitwardenSecret {
        name: "db-creds".to_string(),
        namespace: Some("app".to_string()),
        uid: Some("uid-1234".to_string()),
        vault_path: "homelab/argo-minio".to_string(),
        type_: "Opaque".to_string(),
        has_deletion_timestamp: deletion,
        finalizers,
    }
}

#[test]
fn classify_deletion_wins_over_finalizers() {
    let r = snapshot(true, Some(vec![finalizer_token()]));
    assert_eq!(determine_action(&r), BitwardenSecretAction::Delete);
}

#[test]
fn classify_deletion_wins_without_finalizers() {
    let r = snapshot(true, None);
    assert_eq!(determine_action(&r), BitwardenSecretAction::Delete);
    let r = snapshot(true, Some(vec![]));
    assert_eq!(determine_action(&r), BitwardenSecretAction::Delete);
}

#[test]
fn classify_fresh_snapshot_is_create() {
    let r = snapshot(false, Some(vec![]));
    assert_eq!(determine_action(&r), BitwardenSecretAction::Create);
    let r = snapshot(false, None);
    assert_eq!(determine_action(&r), BitwardenSecretAction::Create);
}

#[test]
fn classify_finalized_snapshot_is_noop() {
    let r = snapshot(false, Some(vec![finalizer_token()]));
    assert_eq!(determine_action(&r), BitwardenSecretAction::NoOp);
    let r = snapshot(false, Some(vec!["another".to_string()]));
    assert_eq!(determine_action(&r), BitwardenSecretAction::NoOp);
}

#[test]
fn namespace_defaults_when_absent() {
    let mut r = snapshot(false, None);
    r.namespace = None;
    assert_eq!(r.namespace_or_default(), "default".to_string());
    assert_eq!(snapshot(false, None).namespace_or_default(), "app".to_string());
}

#[test]
fn add_finalizer_patch_sets_the_token() {
    let p = add_finalizer("db-creds".to_string(), "app".to_string());
    assert_eq!(p.name, "db-creds");
    assert_eq!(p.namespace, "app");
    assert_eq!(
        p.finalizers,
        Some(vec!["pending-external-cleanup".to_string()])
    );
}

#[test]
fn add_finalizer_twice_records_the_same_set() {
    let p = add_finalizer("db-creds".to_string(), "app".to_string());
    let q = add_finalizer("db-creds".to_string(), "app".to_string());
    let once = apply_finalizer_patch(None, p);
    let twice = apply_finalizer_patch(once.clone(), q);
    assert_eq!(once, twice);
    assert_eq!(
        twice,
        Some(vec!["pending-external-cleanup".to_string()])
    );
}

#[test]
fn delete_finalizer_on_missing_resource_is_trivial() {
    let r = delete_finalizer(false, "db-creds".to_string(), "app".to_string());
    assert_eq!(r, None);
}

#[test]
fn delete_finalizer_on_live_resource_clears_the_field() {
    let r = delete_finalizer(true, "db-creds".to_string(), "app".to_string());
    let p = r.expect("a clearing patch");
    assert_eq!(p.name, "db-creds");
    assert_eq!(p.namespace, "app");
    assert_eq!(p.finalizers, None);
}

#[test]
fn remove_finalizer_on_bare_resource_changes_nothing() {
    let p = FinalizerPatch {
        name: "db-creds".to_string(),
        namespace: "app".to_string(),
        finalizers: None,
    };
    assert_eq!(apply_finalizer_patch(None, p), None);
}

#[test]
fn owner_reference_carries_the_resource_uid() {
    let r = snapshot(false, None);
    let o = owner_reference(&r).expect("an owner reference");
    assert_eq!(o.api_version, "tomjo.net/v1");
    assert_eq!(o.kind, "BitwardenSecret");
    assert_eq!(o.name, "db-creds");
    assert_eq!(o.uid, "uid-1234");
    assert_eq!(o.block_owner_deletion, Some(true));
    assert_eq!(o.controller, None);
}

#[test]
fn owner_reference_absent_without_uid() {
    let mut r = snapshot(false, None);
    r.uid = None;
    assert_eq!(owner_reference(&r), None);
}

#[test]
fn created_secret_has_exactly_the_given_payload_and_owner() {
    let owner = OwnerReference {
        api_version: "tomjo.net/v1".to_string(),
        kind: "BitwardenSecret".to_string(),
        name: "db-creds".to_string(),
        uid: "uid-1234".to_string(),
        block_owner_deletion: Some(true),
        controller: None,
    };
    let payload = vec![
        ("user".to_string(), "u".to_string()),
        ("pass".to_string(), "p".to_string()),
    ];
    let s = create_secret(
        owner.clone(),
        "db-creds".to_string(),
        "app".to_string(),
        "Opaque".to_string(),
        payload.clone(),
        default_labels("db-creds".to_string()),
    );
    assert_eq!(s.name, "db-creds");
    assert_eq!(s.namespace, "app");
    assert_eq!(s.type_, "Opaque");
    assert_eq!(s.string_data, payload);
    assert_eq!(s.labels, vec![("app".to_string(), "db-creds".to_string())]);
    assert_eq!(s.owner_reference, owner);
}

#[test]
fn delete_secret_issues_deletion_only_when_present() {
    assert!(delete_secret(true));
    assert!(!delete_secret(false));
}
