//! What holds of the Gaussians that are collected.
use vstd::prelude::*;

use crate::gaussians::model::{GaussianView, Gaussians};
use crate::gaussians::renderer::{
    completes, is_draw_data_of, Buffers, Gaussians3DDrawData, GpuTypes, PipelineMakers, Pipelines,
    ResourceMakers,
};
use crate::gaussians::visualizer::{
    executed, is_first, upserted, DataResult, Entry, Gaussians3DVisualizer,
};
use crate::math::{Float32, Vec3};

verus! {

/// The Gaussians that an entity got last, if any result brought it some.
pub open spec fn latest(results: Seq<DataResult>, path: Seq<char>) -> Option<Seq<GaussianView>>
    decreases results.len(),
{
    if results.len() == 0 {
        None
    } else {
        let result = results.last();
        if result.entity_path@ == path && result.all_gaussians().len() > 0 {
            Some(result.all_gaussians())
        } else {
            latest(results.drop_last(), path)
        }
    }
}

/// No entity has two entries.
pub open spec fn distinct(entries: Seq<Entry>) -> bool {
    forall|i: int, j: int|
        0 <= i < j < entries.len() ==> (#[trigger] entries[i]).0 != (#[trigger] entries[j]).0
}

/// What the results make of each entry: those there were stay where they are, the first of an entity
/// has what the entity got last, the others have what they had, and an entity without an entry gets
/// one behind them.
pub open spec fn accounts_for(
    entries: Seq<Entry>,
    results: Seq<DataResult>,
    out: Seq<Entry>,
) -> bool {
    &&& out.len() >= entries.len()
    &&& forall|i: int| 0 <= i < entries.len() ==> (#[trigger] out[i]).0 == entries[i].0
    &&& forall|i: int|
        0 <= i < out.len() ==> if latest(results, (#[trigger] out[i]).0) is Some && is_first(
            out,
            out[i].0,
            i,
        ) {
            out[i].1 == latest(results, out[i].0)->0
        } else {
            i < entries.len() && out[i] == entries[i]
        }
    &&& forall|path: Seq<char>| #[trigger]
        latest(results, path) is Some ==> exists|i: int| is_first(out, path, i)
}

/// The induction behind the laws on entries.
proof fn entries_are_accounted_for(entries: Seq<Entry>, results: Seq<DataResult>)
    ensures
        accounts_for(entries, results, executed(entries, results)),
    decreases results.len(),
{
    if results.len() > 0 {
        let before = results.drop_last();
        let result = results.last();
        let path = result.entity_path@;
        let gaussians = result.all_gaussians();
        entries_are_accounted_for(entries, before);
        let earlier = executed(entries, before);
        if gaussians.len() == 0 {
            assert forall|p: Seq<char>| #[trigger] latest(results, p) == latest(before, p) by {}
        } else {
            assert forall|p: Seq<char>| #[trigger]
                latest(results, p) == if p == path {
                    Some(gaussians)
                } else {
                    latest(before, p)
                } by {}
            upserting_accounts_for(entries, before, results, earlier, path, gaussians);
        }
    }
}

/// One step of the induction behind the laws on entries.
proof fn upserting_accounts_for(
    entries: Seq<Entry>,
    before: Seq<DataResult>,
    results: Seq<DataResult>,
    earlier: Seq<Entry>,
    path: Seq<char>,
    gaussians: Seq<GaussianView>,
)
    requires
        accounts_for(entries, before, earlier),
        forall|p: Seq<char>| #[trigger]
            latest(results, p) == if p == path {
                Some(gaussians)
            } else {
                latest(before, p)
            },
    ensures
        accounts_for(entries, results, upserted(earlier, path, gaussians)),
{
    let out = upserted(earlier, path, gaussians);
    let found = exists|i: int| is_first(earlier, path, i);
    let at = if found {
        choose|i: int| is_first(earlier, path, i)
    } else {
        earlier.len() as int
    };
    assert forall|i: int| 0 <= i < earlier.len() implies (#[trigger] out[i]).0 == earlier[i].0 by {}
    if !found {
        no_entry_without_a_first(earlier, path);
    }
    assert(out[at] == (path, gaussians));
    assert(is_first(out, path, at));
    assert forall|p: Seq<char>, i: int| p != path implies #[trigger] is_first(out, p, i)
        == is_first(earlier, p, i) by {
        if is_first(out, p, i) {
            assert(out[i].0 == p);
            assert forall|j: int| 0 <= j < i implies (#[trigger] earlier[j]).0 != p by {
                assert(out[j].0 != p);
            }
        }
        if is_first(earlier, p, i) {
            assert forall|j: int| 0 <= j < i implies (#[trigger] out[j]).0 != p by {
                assert(earlier[j].0 != p);
            }
        }
    }
    assert forall|i: int| 0 <= i < out.len() implies if latest(results, (#[trigger] out[i]).0) is Some
        && is_first(out, out[i].0, i) {
        out[i].1 == latest(results, out[i].0)->0
    } else {
        i < entries.len() && out[i] == entries[i]
    } by {
        if out[i].0 == path {
            if i != at {
                assert(i < earlier.len());
                assert(out[i] == earlier[i]);
                if i < at {
                    assert(earlier[i].0 != path);
                } else {
                    assert(out[at].0 == path);
                    assert(!is_first(out, path, i));
                    assert(earlier[at].0 == path);
                    assert(!is_first(earlier, path, i));
                }
            }
        } else {
            assert(i < earlier.len() && out[i] == earlier[i]);
            assert(is_first(out, out[i].0, i) == is_first(earlier, out[i].0, i));
        }
    }
    assert forall|p: Seq<char>| #[trigger] latest(results, p) is Some implies exists|i: int|
        is_first(out, p, i) by {
        if p == path {
            assert(is_first(out, p, at));
        } else {
            assert(latest(before, p) is Some);
            let i = choose|i: int| is_first(earlier, p, i);
            assert(is_first(out, p, i));
        }
    }
}

/// An entity that has entries has a first one.
proof fn no_entry_without_a_first(entries: Seq<Entry>, path: Seq<char>)
    requires
        forall|i: int| !is_first(entries, path, i),
    ensures
        forall|i: int| 0 <= i < entries.len() ==> (#[trigger] entries[i]).0 != path,
{
    if exists|i: int| 0 <= i < entries.len() && (#[trigger] entries[i]).0 == path {
        let i = choose|i: int| 0 <= i < entries.len() && (#[trigger] entries[i]).0 == path;
        first_of(entries, path, i);
    }
}

/// Finds the first entry of an entity.
proof fn first_of(entries: Seq<Entry>, path: Seq<char>, i: int) -> (r: int)
    requires
        0 <= i < entries.len(),
        entries[i].0 == path,
    ensures
        is_first(entries, path, r),
        r <= i,
    decreases i,
{
    if exists|j: int| 0 <= j < i && (#[trigger] entries[j]).0 == path {
        let j = choose|j: int| 0 <= j < i && (#[trigger] entries[j]).0 == path;
        first_of(entries, path, j)
    } else {
        i
    }
}

/// Every entity shows what it got last: after the results, its first entry has the Gaussians of the
/// last result that brought it any.
pub proof fn law_an_entity_shows_what_it_got_last(
    entries: Seq<Entry>,
    results: Seq<DataResult>,
    path: Seq<char>,
)
    requires
        latest(results, path) is Some,
    ensures
        ({
            let out = executed(entries, results);
            exists|i: int|
                0 <= i < out.len() && #[trigger] out[i] == (path, latest(results, path)->0)
                    && forall|j: int| 0 <= j < i ==> (#[trigger] out[j]).0 != path
        }),
{
    entries_are_accounted_for(entries, results);
    let out = executed(entries, results);
    let i = choose|i: int| is_first(out, path, i);
    assert(out[i].0 == path);
    assert(out[i] == (path, latest(results, path)->0));
}

/// An entity that gets nothing keeps what it has, and no entity changes its place. Only the first
/// entry of an entity ever gets anything.
pub proof fn law_other_entities_keep_what_they_have(
    entries: Seq<Entry>,
    results: Seq<DataResult>,
    i: int,
)
    requires
        0 <= i < entries.len(),
    ensures
        i < executed(entries, results).len(),
        executed(entries, results)[i].0 == entries[i].0,
        latest(results, entries[i].0) is None ==> executed(entries, results)[i] == entries[i],
        (exists|j: int| 0 <= j < i && (#[trigger] entries[j]).0 == entries[i].0) ==> executed(
            entries,
            results,
        )[i] == entries[i],
{
    entries_are_accounted_for(entries, results);
    let out = executed(entries, results);
    assert(out[i].0 == entries[i].0);
    if exists|j: int| 0 <= j < i && (#[trigger] entries[j]).0 == entries[i].0 {
        let j = choose|j: int| 0 <= j < i && (#[trigger] entries[j]).0 == entries[i].0;
        assert(out[j].0 == out[i].0);
        assert(!is_first(out, out[i].0, i));
    }
}

/// An entity only comes in with Gaussians: whatever entry is new is that of an entity that some
/// result brought Gaussians, and not empty.
pub proof fn law_new_entries_are_not_empty(
    entries: Seq<Entry>,
    results: Seq<DataResult>,
    i: int,
)
    requires
        entries.len() <= i < executed(entries, results).len(),
    ensures
        latest(results, executed(entries, results)[i].0) == Some(executed(entries, results)[i].1),
        executed(entries, results)[i].1.len() > 0,
{
    entries_are_accounted_for(entries, results);
    let out = executed(entries, results);
    assert(latest(results, out[i].0) is Some);
    what_came_last_is_not_empty(results, out[i].0);
}

/// No entry is ever empty, if none is to begin with.
pub proof fn law_no_entry_becomes_empty(entries: Seq<Entry>, results: Seq<DataResult>)
    requires
        forall|i: int| 0 <= i < entries.len() ==> (#[trigger] entries[i]).1.len() > 0,
    ensures
        forall|i: int|
            0 <= i < executed(entries, results).len() ==> (#[trigger] executed(
                entries,
                results,
            )[i]).1.len() > 0,
{
    entries_are_accounted_for(entries, results);
    let out = executed(entries, results);
    assert forall|i: int| 0 <= i < out.len() implies (#[trigger] out[i]).1.len() > 0 by {
        what_came_last_is_not_empty(results, out[i].0);
        if i < entries.len() {
            assert(entries[i].1.len() > 0);
        }
    }
}

/// Whether a result is the first to bring an entity Gaussians.
pub open spec fn brings_first(results: Seq<DataResult>, path: Seq<char>, k: int) -> bool {
    &&& 0 <= k < results.len()
    &&& results[k].entity_path@ == path
    &&& results[k].all_gaussians().len() > 0
    &&& latest(results.take(k), path) is None
}

/// New entries come in the order in which their entities first got Gaussians: the result that first
/// brought any to the entity of an entry in front comes before the one that did so for an entry
/// behind it. Returns the numbers of these two results.
pub proof fn law_new_entries_come_in_order(
    entries: Seq<Entry>,
    results: Seq<DataResult>,
    i: int,
    j: int,
) -> (r: (int, int))
    requires
        entries.len() <= i < j < executed(entries, results).len(),
    ensures
        brings_first(results, executed(entries, results)[i].0, r.0),
        brings_first(results, executed(entries, results)[j].0, r.1),
        r.0 < r.1,
    decreases results.len(),
{
    let before = results.drop_last();
    let result = results.last();
    let earlier = executed(entries, before);
    let out = executed(entries, results);
    let last = results.len() - 1;
    entries_are_accounted_for(entries, before);
    assert(results.take(last) =~= before);
    assert forall|n: int| 0 <= n < earlier.len() implies (#[trigger] out[n]).0 == earlier[n].0 by {}
    if j < earlier.len() {
        let (k, l) = law_new_entries_come_in_order(entries, before, i, j);
        brings_first_for_good(results, out[i].0, k);
        brings_first_for_good(results, out[j].0, l);
        (k, l)
    } else {
        assert(out[j].0 == result.entity_path@);
        let k = first_bringer(before, earlier[i].0);
        brings_first_for_good(results, out[i].0, k);
        (k, last)
    }
}

/// The first result to bring an entity Gaussians stays the first when more results come in.
proof fn brings_first_for_good(results: Seq<DataResult>, path: Seq<char>, k: int)
    requires
        results.len() > 0,
        brings_first(results.drop_last(), path, k),
    ensures
        brings_first(results, path, k),
{
    assert(results.drop_last().take(k) =~= results.take(k));
}

/// Finds the first result that brings an entity Gaussians.
proof fn first_bringer(results: Seq<DataResult>, path: Seq<char>) -> (r: int)
    requires
        latest(results, path) is Some,
    ensures
        brings_first(results, path, r),
    decreases results.len(),
{
    let before = results.drop_last();
    if latest(before, path) is Some {
        let k = first_bringer(before, path);
        brings_first_for_good(results, path, k);
        k
    } else {
        assert(results.take(results.len() - 1) =~= before);
        results.len() - 1
    }
}

/// A result without Gaussians does not count as bringing any.
proof fn what_came_last_is_not_empty(results: Seq<DataResult>, path: Seq<char>)
    ensures
        latest(results, path) matches Some(gaussians) ==> gaussians.len() > 0,
    decreases results.len(),
{
    if results.len() > 0 {
        what_came_last_is_not_empty(results.drop_last(), path);
    }
}

/// No entity ever gets a second entry.
pub proof fn law_entities_stay_distinct(entries: Seq<Entry>, results: Seq<DataResult>)
    requires
        distinct(entries),
    ensures
        distinct(executed(entries, results)),
{
    entries_are_accounted_for(entries, results);
    let out = executed(entries, results);
    assert forall|i: int, j: int| 0 <= i < j < out.len() implies (#[trigger] out[i]).0 != (
    #[trigger] out[j]).0 by {
        if out[i].0 == out[j].0 {
            assert(!is_first(out, out[j].0, j));
            assert(j < entries.len() && out[j] == entries[j]);
            assert(out[i].0 == entries[i].0);
        }
    }
}

/// The same results a second time change nothing.
pub proof fn law_executing_again_changes_nothing(entries: Seq<Entry>, results: Seq<DataResult>)
    ensures
        executed(executed(entries, results), results) == executed(entries, results),
{
    entries_are_accounted_for(entries, results);
    let once = executed(entries, results);
    entries_are_accounted_for(once, results);
    let twice = executed(once, results);
    assert forall|i: int| 0 <= i < twice.len() implies i < once.len() && #[trigger] twice[i]
        == once[i] by {
        let path = twice[i].0;
        if i >= once.len() {
            assert(latest(results, path) is Some && is_first(twice, path, i));
            let k = choose|k: int| is_first(once, path, k);
            assert(once[k].0 == path);
            assert(twice[k].0 == path);
        } else {
            assert(once[i].0 == path);
            if latest(results, path) is Some && is_first(twice, path, i) {
                assert forall|j: int| 0 <= j < i implies (#[trigger] once[j]).0 != path by {
                    assert(twice[j].0 != path);
                }
                assert(is_first(once, path, i));
            }
        }
    }
    if twice.len() > once.len() {
        let _ = twice[once.len() as int];
    }
    assert(twice =~= once);
}

/// An instance without logged harmonics has none: all its coefficients are zero.
pub proof fn law_missing_harmonics_are_zero(result: DataResult, row: int, instance: int)
    requires
        0 <= row < result.row_count(),
        0 <= instance < result.instance_count(row),
        result.shs@.len() == 0 || result.shs@[row]@.len() <= instance,
    ensures
        result.instance(row, instance).sh == Seq::new(
            15,
            |k: int| Vec3 { x: Float32::zero(), y: Float32::zero(), z: Float32::zero() },
        ),
{
    assert(result.instance(row, instance).sh =~= Seq::new(
        15,
        |k: int| Vec3 { x: Float32::zero(), y: Float32::zero(), z: Float32::zero() },
    ));
}

/// An entity has no Gaussian exactly if none of its complete rows has a complete instance.
pub proof fn law_an_entity_is_empty_iff_all_its_rows_are(result: DataResult)
    ensures
        result.all_gaussians().len() == 0 <==> forall|row: int|
            0 <= row < result.row_count() ==> #[trigger] result.instance_count(row) == 0,
{
    let rows = result.rows();
    rows.lemma_flatten_and_flatten_alt_are_equivalent();
    if result.all_gaussians().len() == 0 {
        assert forall|row: int| 0 <= row < result.row_count() implies
            #[trigger] result.instance_count(row) == 0 by {
            rows.lemma_flatten_length_ge_single_element_length(row);
            assert(rows[row].len() == result.instance_count(row));
        }
    } else if forall|row: int|
        0 <= row < result.row_count() ==> #[trigger] result.instance_count(row) == 0 {
        assert forall|i: int| 0 <= i < rows.len() implies (#[trigger] rows[i]).len() <= 0 by {
            assert(result.instance_count(i) == 0);
        }
        rows.lemma_flatten_length_le_mul(0);
    }
}

/// Executing takes the results in, and then puts every entity that is held on the GPU, in order, for
/// the shared pipelines. These are only touched if there is something to draw.
pub proof fn law_every_entity_is_put_on_the_gpu<
    T,
    MakeP,
    MakeS,
    MakeG,
    Create,
    BindP,
    BindS,
    BindG,
>(
    visualizer: &mut Gaussians3DVisualizer,
    made: &mut Pipelines<T>,
    makers: PipelineMakers<MakeP, MakeS, MakeG>,
    results: Vec<DataResult>,
    resources: ResourceMakers<Create, BindP, BindS, BindG>,
    r: Vec<Gaussians3DDrawData<T>>,
    i: int,
) where
    T: GpuTypes,
    MakeP: Fn() -> T::Preprocessor,
    MakeS: Fn() -> T::RadixSorter,
    MakeG: Fn() -> T::Renderer,
    Create: Fn(&Gaussians, u32, u32) -> Buffers<T>,
    BindP: Fn(
        T::Preprocessor,
        &T::CameraBuffer,
        &T::ModelTransformBuffer,
        &T::GaussianTransformBuffer,
        &T::GaussiansBuffer,
        &T::IndirectArgsBuffer,
        &T::RadixSortIndirectArgsBuffer,
        &T::IndirectIndicesBuffer,
        &T::GaussiansDepthBuffer,
    ) -> T::PreprocessorBindGroup,
    BindS: Fn(
        T::RadixSorter,
        &T::GaussiansDepthBuffer,
        &T::IndirectIndicesBuffer,
    ) -> T::RadixSorterBindGroups,
    BindG: Fn(
        T::Renderer,
        &T::CameraBuffer,
        &T::ModelTransformBuffer,
        &T::GaussianTransformBuffer,
        &T::GaussiansBuffer,
        &T::IndirectIndicesBuffer,
    ) -> T::RendererBindGroup,

    requires
        Gaussians3DVisualizer::execute::<T, MakeP, MakeS, MakeG, Create, BindP, BindS, BindG>.ensures(
            (visualizer, made, &makers, &results, &resources),
            r,
        ),
    ensures
        final(visualizer)@ == executed(old(visualizer)@, results@),
        r@.len() == final(visualizer).gaussians@.len(),
        r@.len() == 0 ==> *final(made) == *old(made),
        r@.len() > 0 ==> completes(*old(made), makers, *final(made)),
        0 <= i < r@.len() ==> is_draw_data_of(
            r@[i],
            final(made).all(),
            final(visualizer).gaussians@[i].1,
            resources,
        ),
{
}

} // verus!
