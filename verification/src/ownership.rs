//! Who owns which reference: what cloning and releasing do to the backend's
//! reference counts.

use vstd::prelude::*;
use crate::call::{
    BackendCall, HandleKind, Resource, net_references, release_count, repeated, retain_count,
};
use crate::call::{lemma_counts_concat, lemma_counts_repeated, lemma_counts_single};
use crate::draw_target::DrawTargetView;
use crate::path::{Path, PathBuilder};
use crate::pattern::{ColorPattern, GradientStops, LinearGradientPattern};
use crate::surface::{DataSourceSurface, SourceSurface};

verus! {

/// One round of retain calls takes one reference on each object the target
/// owns and gives none back; one round of release calls gives one back on
/// each and takes none. No other object is touched.
pub proof fn lemma_draw_target_rounds(target: DrawTargetView, resource: Resource)
    ensures
        retain_count(target.retain_calls(), resource) == if target.owns(resource) {
            1nat
        } else {
            0nat
        },
        release_count(target.retain_calls(), resource) == 0,
        retain_count(target.release_calls(), resource) == 0,
        release_count(target.release_calls(), resource) == if target.owns(resource) {
            1nat
        } else {
            0nat
        },
{
    reveal_with_fuel(retain_count, 3);
    reveal_with_fuel(release_count, 3);
    let retains = target.retain_calls();
    let releases = target.release_calls();
    match target.skia_context {
        Some(context) => {
            assert(retains.drop_last() =~= seq![
                BackendCall::RetainDrawTarget { target: target.target },
            ]);
            assert(releases.drop_last() =~= seq![
                BackendCall::ReleaseDrawTarget { target: target.target },
            ]);
            assert(retains.drop_last().drop_last() =~= Seq::<BackendCall>::empty());
            assert(releases.drop_last().drop_last() =~= Seq::<BackendCall>::empty());
        },
        None => {
            assert(retains.drop_last() =~= Seq::<BackendCall>::empty());
            assert(releases.drop_last() =~= Seq::<BackendCall>::empty());
        },
    }
}

/// Cloning a draw target any number of times and then releasing the first
/// owner and every clone retains each backend object the target owns once
/// for each clone and releases it once for each owner: one release more than
/// retains, which gives back the reference that creation handed over. No
/// other object's count is touched.
pub proof fn law_reference_balance(target: DrawTargetView, clones: nat, resource: Resource)
    ensures
        ({
            let calls = repeated(target.retain_calls(), clones) + repeated(
                target.release_calls(),
                clones + 1,
            );
            if target.owns(resource) {
                &&& retain_count(calls, resource) == clones
                &&& release_count(calls, resource) == clones + 1
                &&& net_references(calls, resource) == -1
            } else {
                &&& retain_count(calls, resource) == 0
                &&& release_count(calls, resource) == 0
                &&& net_references(calls, resource) == 0
            }
        }),
{
    let retains = target.retain_calls();
    let releases = target.release_calls();
    lemma_counts_concat(repeated(retains, clones), repeated(releases, clones + 1), resource);
    lemma_counts_repeated(retains, clones, resource);
    lemma_counts_repeated(releases, clones + 1, resource);
    lemma_draw_target_rounds(target, resource);
    let took = retain_count(retains, resource);
    let gave = release_count(releases, resource);
    assert(clones * took == if took == 1 {
        clones
    } else {
        0nat
    }) by (nonlinear_arith)
        requires
            took == 0 || took == 1,
    ;
    assert((clones + 1) * gave == if gave == 1 {
        clones + 1
    } else {
        0nat
    }) by (nonlinear_arith)
        requires
            gave == 0 || gave == 1,
    ;
    assert(clones * 0 == 0 && (clones + 1) * 0 == 0) by (nonlinear_arith);
}

/// Stealing the GL resources of a draw target plans one steal call on the
/// target's GL context when it has one and none when it has not, and the
/// teardown that follows gives back one reference on every object the
/// target owned.
pub proof fn law_steal_is_one_shot(target: DrawTargetView, resource: Resource)
    ensures
        target.skia_context is None ==> target.steal_call() is None,
        target.skia_context matches Some(context) ==> target.steal_call() == Some(
            BackendCall::StealSurface { context },
        ),
        net_references(target.release_calls(), resource) == if target.owns(resource) {
            -1int
        } else {
            0int
        },
{
    lemma_draw_target_rounds(target, resource);
}

/// Whether `call`, made on its own, gives back one reference on `owned`,
/// takes none, and leaves the count of every other object alone, as seen
/// from the object `resource`.
pub open spec fn single_release(call: BackendCall, owned: Resource, resource: Resource) -> bool {
    &&& retain_count(seq![call], resource) == 0
    &&& release_count(seq![call], resource) == if resource == owned {
        1nat
    } else {
        0nat
    }
}

/// For every kind of handle that has a single owner, the owner's release
/// gives back exactly one reference on the object it owned and touches no
/// other object.
pub proof fn law_single_owner_release(
    color_pattern: ColorPattern,
    gradient_pattern: LinearGradientPattern,
    stops: GradientStops,
    surface: SourceSurface,
    data_surface: DataSourceSurface,
    path: Path,
    builder: PathBuilder,
    resource: Resource,
)
    ensures
        single_release(
            BackendCall::ReleasePattern { pattern: color_pattern@ },
            Resource { kind: HandleKind::Pattern, token: color_pattern@ },
            resource,
        ),
        single_release(
            BackendCall::ReleasePattern { pattern: gradient_pattern@ },
            Resource { kind: HandleKind::Pattern, token: gradient_pattern@ },
            resource,
        ),
        single_release(
            BackendCall::ReleaseGradientStops { stops: stops@ },
            Resource { kind: HandleKind::GradientStops, token: stops@ },
            resource,
        ),
        single_release(
            BackendCall::ReleaseSourceSurface { surface: surface@ },
            Resource { kind: HandleKind::SourceSurface, token: surface@ },
            resource,
        ),
        single_release(
            BackendCall::ReleaseSourceSurface { surface: data_surface@ },
            Resource { kind: HandleKind::SourceSurface, token: data_surface@ },
            resource,
        ),
        single_release(
            BackendCall::ReleasePath { path: path@ },
            Resource { kind: HandleKind::Path, token: path@ },
            resource,
        ),
        single_release(
            BackendCall::ReleasePathBuilder { builder: builder@ },
            Resource { kind: HandleKind::PathBuilder, token: builder@ },
            resource,
        ),
{
    lemma_counts_single(BackendCall::ReleasePattern { pattern: color_pattern@ }, resource);
    lemma_counts_single(BackendCall::ReleasePattern { pattern: gradient_pattern@ }, resource);
    lemma_counts_single(BackendCall::ReleaseGradientStops { stops: stops@ }, resource);
    lemma_counts_single(BackendCall::ReleaseSourceSurface { surface: surface@ }, resource);
    lemma_counts_single(BackendCall::ReleaseSourceSurface { surface: data_surface@ }, resource);
    lemma_counts_single(BackendCall::ReleasePath { path: path@ }, resource);
    lemma_counts_single(BackendCall::ReleasePathBuilder { builder: builder@ }, resource);
}

} // verus!
