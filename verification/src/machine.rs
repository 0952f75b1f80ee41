use vstd::prelude::*;
use crate::resource::{
    BitwardenSecret, BitwardenSecretAction, determine_action, spec_action,
    spec_namespace_or_default,
};
use crate::finalizer::{FinalizerPatch, add_finalizer, spec_is_add_patch};
use crate::secret::{
    OwnerReference, TargetSecret, create_secret, default_labels, owner_reference,
    spec_default_labels, spec_owner_reference_for,
};

verus! {

/// Delay, in seconds, before a routine re-reconciliation.
pub const REQUEUE_SECONDS: u64 = 10;

/// Delay, in seconds, before retrying after a reconciliation error.
pub const ERROR_REQUEUE_SECONDS: u64 = 5;

/// The scheduling directive a finished reconciliation hands back to the
/// external scheduler.
#[derive(Clone, Copy, Debug, PartialEq, Eq, Structural)]
pub enum Directive {
    /// Re-invoke reconciliation for this resource after this many
    /// seconds.
    Requeue(u64),
    /// Do nothing until the next observed change of the resource.
    AwaitChange,
}

/// A reconciliation error surfaced to the external scheduler.
#[derive(Clone, Debug, PartialEq)]
pub enum Error {
    /// The cluster API reported an error; carries its message.
    KubeError { source: String },
    /// The snapshot is malformed — it carries no UID — so no owner
    /// reference can be recorded; carries the resource's name.
    UserInputError(String),
}

/// What the synchronizer will need once the vault material arrives,
/// fixed at classification time from the resource snapshot.
#[derive(Clone, Debug, PartialEq)]
pub struct SecretTemplate {
    /// Name of the resource, mirrored by the target secret.
    pub name: String,
    /// Resolved namespace the target secret lives in.
    pub namespace: String,
    /// Vault path to fetch the secret material from.
    pub vault_path: String,
    /// Type tag of the target secret.
    pub type_: String,
    /// Labels to stamp on the target secret.
    pub labels: Vec<(String, String)>,
    /// Owner reference back to the resource, absent when the snapshot
    /// carries no UID.
    pub owner_ref: Option<OwnerReference>,
}

/// The identity a cleanup run operates on.
#[derive(Clone, Debug, PartialEq)]
pub struct ResourceKey {
    /// Name of the resource.
    pub name: String,
    /// Resolved namespace of the resource.
    pub namespace: String,
}

/// The state of one reconciliation run. Each state names the external
/// call currently in flight; the run ends in `Done`.
#[derive(Debug, PartialEq)]
pub enum ReconcileMachine {
    /// Provisioning: the finalizer-registering patch is in flight.
    AddingFinalizer(SecretTemplate),
    /// Provisioning: the vault fetch is in flight.
    FetchingItem(SecretTemplate),
    /// Provisioning: the vault session is being reset after a failed
    /// fetch.
    ResettingSession,
    /// Provisioning: the target-secret create is in flight.
    CreatingSecret,
    /// Cleanup: the target-secret existence check is in flight.
    CheckingSecretExists(ResourceKey),
    /// Cleanup: the target-secret delete is in flight.
    DeletingSecret(ResourceKey),
    /// Cleanup: the resource existence check is in flight.
    CheckingResourceExists(ResourceKey),
    /// Cleanup: the finalizer-clearing patch is in flight.
    RemovingFinalizer,
    /// The run is over with this outcome.
    Done(Result<Directive, Error>),
}

/// The external call the driver must perform next, or the outcome of the
/// run. Each carries exactly the data the library computed for it; the
/// driver supplies the call's result as an [`Event`].
#[derive(Debug, PartialEq)]
pub enum Command {
    /// Issue this merge-patch against the resource's finalizer field.
    PatchFinalizers(FinalizerPatch),
    /// Fetch the vault item at this path.
    FetchItem(String),
    /// Submit this target secret for creation.
    CreateSecret(TargetSecret),
    /// Check whether the target secret still exists.
    GetSecret,
    /// Delete the target secret.
    DeleteSecret,
    /// Check whether the desired-state resource still exists.
    GetResource,
    /// Discard the vault session so the next fetch re-authenticates.
    ResetSession,
    /// The run is over; hand this outcome to the external scheduler.
    Finish(Result<Directive, Error>),
}

/// The outcome of an external call, reported back by the driver.
#[derive(Debug, PartialEq)]
pub enum Event {
    /// Outcome of a finalizer patch.
    PatchDone(Result<(), String>),
    /// Outcome of the vault fetch: the item's key/value pairs, or the
    /// vault's error message.
    FetchDone(Result<Vec<(String, String)>, String>),
    /// Outcome of the target-secret create.
    CreateDone(Result<(), String>),
    /// Outcome of the target-secret existence check.
    SecretExists(Result<bool, String>),
    /// Outcome of the target-secret delete.
    DeleteDone(Result<(), String>),
    /// Outcome of the resource existence check.
    ResourceExists(Result<bool, String>),
    /// The vault session was reset.
    ResetDone,
}

/// A finished run together with its `Finish` command.
pub open spec fn spec_finish(res: Result<Directive, Error>) -> (ReconcileMachine, Command) {
    (ReconcileMachine::Done(res), Command::Finish(res))
}

/// A run aborted by a cluster API error: the error propagates to the
/// external scheduler.
pub open spec fn spec_fail(msg: String) -> (ReconcileMachine, Command) {
    spec_finish(Result::Err(Error::KubeError { source: msg }))
}

impl ReconcileMachine {
    /// Which event the machine is waiting for: the outcome of exactly the
    /// call it last commanded. A finished machine expects none.
    pub open spec fn expects(self, e: Event) -> bool {
        match self {
            ReconcileMachine::AddingFinalizer(_) => e is PatchDone,
            ReconcileMachine::FetchingItem(_) => e is FetchDone,
            ReconcileMachine::ResettingSession => e is ResetDone,
            ReconcileMachine::CreatingSecret => e is CreateDone,
            ReconcileMachine::CheckingSecretExists(_) => e is SecretExists,
            ReconcileMachine::DeletingSecret(_) => e is DeleteDone,
            ReconcileMachine::CheckingResourceExists(_) => e is ResourceExists,
            ReconcileMachine::RemovingFinalizer => e is PatchDone,
            ReconcileMachine::Done(_) => false,
        }
    }
}

/// The transition function of the reconciliation run: from the current
/// state and the outcome of the call in flight to the next state and the
/// next call. `None` exactly when the event is not the one the state
/// awaits.
pub open spec fn spec_step(m: ReconcileMachine, e: Event) -> Option<(ReconcileMachine, Command)> {
    match (m, e) {
        (ReconcileMachine::AddingFinalizer(t), Event::PatchDone(res)) => Option::Some(
            match res {
                Result::Ok(_) => (
                    ReconcileMachine::FetchingItem(t),
                    Command::FetchItem(t.vault_path),
                ),
                Result::Err(msg) => spec_fail(msg),
            },
        ),
        (ReconcileMachine::FetchingItem(t), Event::FetchDone(res)) => Option::Some(
            match res {
                Result::Ok(kvs) => match t.owner_ref {
                    Option::Some(o) => (
                        ReconcileMachine::CreatingSecret,
                        Command::CreateSecret(TargetSecret {
                            name: t.name,
                            namespace: t.namespace,
                            type_: t.type_,
                            string_data: kvs,
                            labels: t.labels,
                            owner_reference: o,
                        }),
                    ),
                    Option::None => spec_finish(Result::Err(Error::UserInputError(t.name))),
                },
                Result::Err(_) => (ReconcileMachine::ResettingSession, Command::ResetSession),
            },
        ),
        (ReconcileMachine::ResettingSession, Event::ResetDone) => Option::Some(
            spec_finish(Result::Ok(Directive::Requeue(REQUEUE_SECONDS))),
        ),
        (ReconcileMachine::CreatingSecret, Event::CreateDone(res)) => Option::Some(
            match res {
                Result::Ok(_) => spec_finish(Result::Ok(Directive::Requeue(REQUEUE_SECONDS))),
                Result::Err(msg) => spec_fail(msg),
            },
        ),
        (ReconcileMachine::CheckingSecretExists(k), Event::SecretExists(res)) => Option::Some(
            match res {
                Result::Ok(true) => (ReconcileMachine::DeletingSecret(k), Command::DeleteSecret),
                Result::Ok(false) => (
                    ReconcileMachine::CheckingResourceExists(k),
                    Command::GetResource,
                ),
                Result::Err(msg) => spec_fail(msg),
            },
        ),
        (ReconcileMachine::DeletingSecret(k), Event::DeleteDone(res)) => Option::Some(
            match res {
                Result::Ok(_) => (
                    ReconcileMachine::CheckingResourceExists(k),
                    Command::GetResource,
                ),
                Result::Err(msg) => spec_fail(msg),
            },
        ),
        (ReconcileMachine::CheckingResourceExists(k), Event::ResourceExists(res)) => Option::Some(
            match res {
                Result::Ok(true) => (
                    ReconcileMachine::RemovingFinalizer,
                    Command::PatchFinalizers(FinalizerPatch {
                        name: k.name,
                        namespace: k.namespace,
                        finalizers: Option::None,
                    }),
                ),
                Result::Ok(false) => spec_finish(Result::Ok(Directive::AwaitChange)),
                Result::Err(msg) => spec_fail(msg),
            },
        ),
        (ReconcileMachine::RemovingFinalizer, Event::PatchDone(res)) => Option::Some(
            match res {
                Result::Ok(_) => spec_finish(Result::Ok(Directive::AwaitChange)),
                Result::Err(msg) => spec_fail(msg),
            },
        ),
        _ => Option::None,
    }
}

/// A finished run and its outcome command.
fn finish(d: Directive) -> (r: (ReconcileMachine, Command))
    ensures
        r == spec_finish(Result::Ok(d)),
{
    (ReconcileMachine::Done(Result::Ok(d)), Command::Finish(Result::Ok(d)))
}

/// A run aborted by a cluster API error.
fn fail_kube(msg: String) -> (r: (ReconcileMachine, Command))
    ensures
        r == spec_fail(msg),
{
    let msg_again = msg.clone();
    (
        ReconcileMachine::Done(Result::Err(Error::KubeError { source: msg })),
        Command::Finish(Result::Err(Error::KubeError { source: msg_again })),
    )
}

impl ReconcileMachine {
    /// Advances the run with the outcome of the call in flight, yielding
    /// the next state and the next call to perform. The event must be the
    /// one the state awaits; [`Self::expects_event`] checks that.
    pub fn step(self, event: Event) -> (r: (ReconcileMachine, Command))
        requires
            self.expects(event),
        ensures
            Option::Some(r) == spec_step(self, event),
    {
        match (self, event) {
            (ReconcileMachine::AddingFinalizer(t), Event::PatchDone(res)) => match res {
                Result::Ok(_) => {
                    let path = t.vault_path.clone();
                    (ReconcileMachine::FetchingItem(t), Command::FetchItem(path))
                },
                Result::Err(msg) => fail_kube(msg),
            },
            (ReconcileMachine::FetchingItem(t), Event::FetchDone(res)) => match res {
                Result::Ok(kvs) => {
                    let SecretTemplate { name, namespace, vault_path: _, type_, labels, owner_ref } = t;
                    match owner_ref {
                        Option::Some(o) => {
                            let s = create_secret(o, name, namespace, type_, kvs, labels);
                            (ReconcileMachine::CreatingSecret, Command::CreateSecret(s))
                        },
                        Option::None => {
                            let name_again = name.clone();
                            (
                                ReconcileMachine::Done(
                                    Result::Err(Error::UserInputError(name)),
                                ),
                                Command::Finish(Result::Err(Error::UserInputError(name_again))),
                            )
                        },
                    }
                },
                Result::Err(_) => (ReconcileMachine::ResettingSession, Command::ResetSession),
            },
            (ReconcileMachine::ResettingSession, Event::ResetDone) => finish(
                Directive::Requeue(REQUEUE_SECONDS),
            ),
            (ReconcileMachine::CreatingSecret, Event::CreateDone(res)) => match res {
                Result::Ok(_) => finish(Directive::Requeue(REQUEUE_SECONDS)),
                Result::Err(msg) => fail_kube(msg),
            },
            (ReconcileMachine::CheckingSecretExists(k), Event::SecretExists(res)) => match res {
                Result::Ok(exists) => {
                    if crate::secret::delete_secret(exists) {
                        (ReconcileMachine::DeletingSecret(k), Command::DeleteSecret)
                    } else {
                        (ReconcileMachine::CheckingResourceExists(k), Command::GetResource)
                    }
                },
                Result::Err(msg) => fail_kube(msg),
            },
            (ReconcileMachine::DeletingSecret(k), Event::DeleteDone(res)) => match res {
                Result::Ok(_) => (
                    ReconcileMachine::CheckingResourceExists(k),
                    Command::GetResource,
                ),
                Result::Err(msg) => fail_kube(msg),
            },
            (ReconcileMachine::CheckingResourceExists(k), Event::ResourceExists(res)) => match res {
                Result::Ok(exists) => {
                    let ResourceKey { name, namespace } = k;
                    match crate::finalizer::delete_finalizer(exists, name, namespace) {
                        Option::Some(p) => (
                            ReconcileMachine::RemovingFinalizer,
                            Command::PatchFinalizers(p),
                        ),
                        Option::None => finish(Directive::AwaitChange),
                    }
                },
                Result::Err(msg) => fail_kube(msg),
            },
            (ReconcileMachine::RemovingFinalizer, Event::PatchDone(res)) => match res {
                Result::Ok(_) => finish(Directive::AwaitChange),
                Result::Err(msg) => fail_kube(msg),
            },
            _ => vstd::pervasive::unreached(),
        }
    }

    /// Whether `event` is the one the machine awaits; the unverified
    /// driver checks this before calling [`Self::step`].
    pub fn expects_event(&self, event: &Event) -> (b: bool)
        ensures
            b == self.expects(*event),
    {
        match (self, event) {
            (ReconcileMachine::AddingFinalizer(_), Event::PatchDone(_)) => true,
            (ReconcileMachine::FetchingItem(_), Event::FetchDone(_)) => true,
            (ReconcileMachine::ResettingSession, Event::ResetDone) => true,
            (ReconcileMachine::CreatingSecret, Event::CreateDone(_)) => true,
            (ReconcileMachine::CheckingSecretExists(_), Event::SecretExists(_)) => true,
            (ReconcileMachine::DeletingSecret(_), Event::DeleteDone(_)) => true,
            (ReconcileMachine::CheckingResourceExists(_), Event::ResourceExists(_)) => true,
            (ReconcileMachine::RemovingFinalizer, Event::PatchDone(_)) => true,
            _ => false,
        }
    }
}

/// Whether the template holds exactly what the synchronizer must use for
/// this resource: its name, its resolved namespace, its vault path and
/// type tag, the controller's label set, and its owner reference.
pub open spec fn spec_template_for(t: SecretTemplate, r: BitwardenSecret) -> bool {
    t.name == r.name && t.namespace@ == spec_namespace_or_default(r) && t.vault_path
        == r.vault_path && t.type_ == r.type_ && spec_default_labels(t.labels, r.name)
        && spec_owner_reference_for(t.owner_ref, r)
}

/// Whether the key names this resource and its resolved namespace.
pub open spec fn spec_key_for(k: ResourceKey, r: BitwardenSecret) -> bool {
    k.name == r.name && k.namespace@ == spec_namespace_or_default(r)
}

/// The association between a run's state and the resource snapshot that
/// started it.
pub open spec fn spec_resource_inv(m: ReconcileMachine, r: BitwardenSecret) -> bool {
    match m {
        ReconcileMachine::AddingFinalizer(t) => spec_template_for(t, r),
        ReconcileMachine::FetchingItem(t) => spec_template_for(t, r),
        ReconcileMachine::CheckingSecretExists(k) => spec_key_for(k, r),
        ReconcileMachine::DeletingSecret(k) => spec_key_for(k, r),
        ReconcileMachine::CheckingResourceExists(k) => spec_key_for(k, r),
        _ => true,
    }
}

/// The reconciliation entry point: classifies the snapshot and begins a
/// run. A deletion request starts the cleanup path; a snapshot without
/// finalizers starts provisioning, beginning with the finalizer patch; an
/// already-finalized snapshot needs no calls and finishes at once with a
/// periodic requeue.
pub fn reconcile(resource: BitwardenSecret) -> (r: (ReconcileMachine, Command))
    ensures
        spec_resource_inv(r.0, resource),
        spec_action(resource) == BitwardenSecretAction::Create ==> (r.0 is AddingFinalizer && (
        r.1 matches Command::PatchFinalizers(p) && spec_is_add_patch(p) && p.name == resource.name
            && p.namespace@ == spec_namespace_or_default(resource))),
        spec_action(resource) == BitwardenSecretAction::Delete ==> r.0 is CheckingSecretExists
            && r.1 == Command::GetSecret,
        spec_action(resource) == BitwardenSecretAction::NoOp ==> r == spec_finish(
            Result::Ok(Directive::Requeue(REQUEUE_SECONDS)),
        ),
{
    let name = resource.name.clone();
    let namespace = resource.namespace_or_default();
    match determine_action(&resource) {
        BitwardenSecretAction::Create => {
            let patch = add_finalizer(name.clone(), namespace.clone());
            let labels = default_labels(name.clone());
            let owner_ref = owner_reference(&resource);
            let template = SecretTemplate {
                name,
                namespace,
                vault_path: resource.vault_path.clone(),
                type_: resource.type_.clone(),
                labels,
                owner_ref,
            };
            (ReconcileMachine::AddingFinalizer(template), Command::PatchFinalizers(patch))
        },
        BitwardenSecretAction::Delete => (
            ReconcileMachine::CheckingSecretExists(ResourceKey { name, namespace }),
            Command::GetSecret,
        ),
        BitwardenSecretAction::NoOp => finish(Directive::Requeue(REQUEUE_SECONDS)),
    }
}

/// The error-handler entry point: every reconciliation error drives a
/// fixed-delay retry.
pub fn on_error(_error: &Error) -> (d: Directive)
    ensures
        d == Directive::Requeue(ERROR_REQUEUE_SECONDS),
{
    Directive::Requeue(ERROR_REQUEUE_SECONDS)
}

/// Law: the association between a run's state and the resource that
/// started it, established by [`reconcile`], is preserved by every step.
pub proof fn lemma_step_preserves_resource_inv(m: ReconcileMachine, e: Event, r: BitwardenSecret)
    requires
        spec_resource_inv(m, r),
    ensures
        spec_step(m, e) matches Option::Some(s) ==> spec_resource_inv(s.0, r),
{
}

/// Law: every target secret a run asks to create carries exactly one
/// owner reference — structurally, a [`TargetSecret`] holds a single
/// [`OwnerReference`] — and that reference's UID is the resource's UID,
/// its name the resource's name; the secret itself mirrors the resource's
/// name and resolved namespace.
pub proof fn lemma_created_secret_ownership(m: ReconcileMachine, e: Event, r: BitwardenSecret)
    requires
        spec_resource_inv(m, r),
    ensures
        spec_step(m, e) matches Option::Some(s) ==> (s.1 matches Command::CreateSecret(sec) ==> (
        r.uid == Option::Some(sec.owner_reference.uid) && sec.owner_reference.name == r.name
            && sec.name == r.name && sec.namespace@ == spec_namespace_or_default(r))),
{
}

/// Law: in a cleanup run the finalizer is never removed before the target
/// secret is gone. The finalizer-clearing patch is emitted only from the
/// resource-existence check; that check is entered only once the secret
/// was deleted successfully or found already absent; and the deletion
/// state is entered only from the secret-existence check.
pub proof fn lemma_cleanup_ordering(m: ReconcileMachine, e: Event)
    ensures
        spec_step(m, e) matches Option::Some(s) ==> ((s.1 matches Command::PatchFinalizers(p)
            && p.finalizers is None) ==> m is CheckingResourceExists),
        spec_step(m, e) matches Option::Some(s) ==> (s.0 is CheckingResourceExists ==> (m
            is CheckingSecretExists && e == Event::SecretExists(Result::<bool, String>::Ok(false)))
            || (m is DeletingSecret && (e matches Event::DeleteDone(res) && res is Ok))),
        spec_step(m, e) matches Option::Some(s) ==> (s.0 is DeletingSecret ==> m
            is CheckingSecretExists && e == Event::SecretExists(Result::<bool, String>::Ok(true))),
{
}

/// Law: the machine awaits an event exactly when the transition
/// function is defined on it, so the driver's acceptance check
/// ([`ReconcileMachine::expects_event`]) is a faithful guard for
/// [`ReconcileMachine::step`].
pub proof fn lemma_expects_matches_step(m: ReconcileMachine, e: Event)
    ensures
        m.expects(e) <==> spec_step(m, e) is Some,
{
}

/// Law: a failed vault fetch creates or modifies no target secret. The
/// run asks only for a session reset and then finishes with the routine
/// requeue directive, surfacing no error to the external handler.
pub proof fn lemma_fetch_failure_resets(t: SecretTemplate, msg: String)
    ensures
        spec_step(ReconcileMachine::FetchingItem(t), Event::FetchDone(Result::Err(msg)))
            == Option::Some((ReconcileMachine::ResettingSession, Command::ResetSession)),
        spec_step(ReconcileMachine::ResettingSession, Event::ResetDone) == Option::Some(
            spec_finish(Result::Ok(Directive::Requeue(REQUEUE_SECONDS))),
        ),
{
}

} // verus!

