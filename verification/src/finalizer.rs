use vstd::prelude::*;

verus! {

/// A merge-patch against the metadata of a desired-state resource,
/// targeting its finalizer field: `Some(fs)` sets the finalizer set to
/// `fs`, `None` clears it.
#[derive(Clone, Debug, PartialEq)]
pub struct FinalizerPatch {
    /// Name of the resource to patch.
    pub name: String,
    /// Namespace of the resource to patch.
    pub namespace: String,
    /// The value the finalizer field is patched to.
    pub finalizers: Option<Vec<String>>,
}

/// The well-known finalizer token whose presence gates deletion of the
/// desired-state resource until external cleanup has completed.
pub open spec fn spec_finalizer_token() -> Seq<char> {
    "pending-external-cleanup"@
}

/// The finalizer token as an owned string.
pub fn finalizer_token() -> (t: String)
    ensures
        t@ == spec_finalizer_token(),
{
    "pending-external-cleanup".to_owned()
}

/// Whether a patch sets the finalizer set to exactly the well-known token.
pub open spec fn spec_is_add_patch(p: FinalizerPatch) -> bool {
    match p.finalizers {
        Option::Some(fs) => fs@.len() == 1 && fs@[0]@ == spec_finalizer_token(),
        Option::None => false,
    }
}

/// Builds the patch that registers the finalizer on the named resource:
/// the finalizer set is set unconditionally to the one well-known token,
/// so issuing it on an already-finalized resource changes nothing.
pub fn add_finalizer(name: String, namespace: String) -> (p: FinalizerPatch)
    ensures
        p.name == name,
        p.namespace == namespace,
        spec_is_add_patch(p),
{
    let mut fs: Vec<String> = Vec::new();
    fs.push(finalizer_token());
    FinalizerPatch { name, namespace, finalizers: Option::Some(fs) }
}

/// Decides the finalizer-removal step for the named resource. The caller
/// reports whether the resource still exists: when it is already gone the
/// removal succeeds trivially and no patch is issued; otherwise the
/// returned patch clears the finalizer field.
pub fn delete_finalizer(exists: bool, name: String, namespace: String) -> (r: Option<FinalizerPatch>)
    ensures
        exists <==> r is Some,
        r matches Option::Some(p) ==> p.name == name && p.namespace == namespace
            && p.finalizers is None,
{
    if exists {
        Option::Some(FinalizerPatch { name, namespace, finalizers: Option::None })
    } else {
        Option::None
    }
}

/// The merge-patch semantics of the cluster store on the finalizer field:
/// the patched value replaces whatever is currently recorded, and null
/// clears the field.
pub open spec fn spec_apply_finalizer_patch(
    current: Option<Vec<String>>,
    p: FinalizerPatch,
) -> Option<Vec<String>> {
    p.finalizers
}

/// Applies a finalizer merge-patch to the currently recorded finalizer
/// set, yielding the set the cluster store records afterwards.
pub fn apply_finalizer_patch(current: Option<Vec<String>>, p: FinalizerPatch) -> (r: Option<
    Vec<String>,
>)
    ensures
        r == spec_apply_finalizer_patch(current, p),
{
    let _replaced = current;
    p.finalizers
}

/// Law: registering the finalizer is idempotent. Applying one and the
/// same finalizer patch twice in sequence records the same finalizer set
/// as applying it once.
pub proof fn lemma_add_finalizer_idempotent(current: Option<Vec<String>>, p: FinalizerPatch)
    ensures
        spec_apply_finalizer_patch(spec_apply_finalizer_patch(current, p), p)
            == spec_apply_finalizer_patch(current, p),
{
}

/// Law: removing the finalizer from a resource that records none is a
/// no-op. The clearing patch always leaves the field absent, so on a
/// resource whose finalizer field is already absent it changes nothing.
pub proof fn lemma_remove_finalizer_trivial(current: Option<Vec<String>>, p: FinalizerPatch)
    requires
        p.finalizers is None,
    ensures
        spec_apply_finalizer_patch(current, p) is None,
        current is None ==> spec_apply_finalizer_patch(current, p) == current,
{
}

} // verus!

