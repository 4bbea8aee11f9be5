//! What the Gaussians of an entity have to do with what was logged for it.
use vstd::math::min;
use vstd::prelude::*;

use crate::gaussians::model::{GaussianView, Gaussians};
use crate::gaussians::model_laws::{is_made_of, law_values_tell_every_part, values_tell_components};
use crate::gaussians::visualizer::{DataResult, Gaussians3DVisualizer};
use crate::math::Float32;

verus! {

/// Whether a row was logged for every component, harmonics included if any were logged at all.
pub open spec fn is_complete_row(result: DataResult, row: int) -> bool {
    &&& 0 <= row
    &&& row < result.rots@.len()
    &&& row < result.poss@.len()
    &&& row < result.colors@.len()
    &&& row < result.scales@.len()
    &&& result.shs@.len() == 0 || row < result.shs@.len()
}

/// Whether an instance of a complete row has every component but the harmonics, which it may lack.
pub open spec fn is_complete_instance(result: DataResult, row: int, instance: int) -> bool {
    &&& is_complete_row(result, row)
    &&& 0 <= instance
    &&& instance < result.rots@[row]@.len()
    &&& instance < result.poss@[row]@.len()
    &&& instance < result.colors@[row]@.len()
    &&& instance < result.scales@[row]@.len()
}

/// How many instances of a row are complete.
pub open spec fn complete_instances(result: DataResult, row: int) -> int {
    if is_complete_row(result, row) {
        min(
            min(result.rots@[row]@.len() as int, result.poss@[row]@.len() as int),
            min(result.colors@[row]@.len() as int, result.scales@[row]@.len() as int),
        )
    } else {
        0
    }
}

/// How many instances of the rows in front of the given one are complete.
pub open spec fn instances_before(result: DataResult, row: int) -> int
    decreases row,
{
    if row <= 0 {
        0
    } else {
        instances_before(result, row - 1) + complete_instances(result, row - 1)
    }
}

/// The harmonics that were logged for an instance: zero throughout if there are none.
pub open spec fn logged_harmonics(result: DataResult, row: int, instance: int) -> Seq<Float32> {
    if result.shs@.len() > 0 && instance < result.shs@[row]@.len() {
        result.shs@[row]@[instance]@
    } else {
        Seq::new(45, |n: int| Float32 { bits: 0 })
    }
}

/// Where an item of a sequence of sequences comes to stand when they are joined.
proof fn item_of_joined<A>(parts: Seq<Seq<A>>, n: int, i: int)
    requires
        0 <= n < parts.len(),
        0 <= i < parts[n].len(),
    ensures
        parts.take(n).flatten().len() + i < parts.flatten().len(),
        parts.flatten()[parts.take(n).flatten().len() + i] == parts[n][i],
    decreases parts.len(),
{
    let front = parts.drop_last();
    assert(parts =~= front.push(parts.last()));
    front.lemma_flatten_push(parts.last());
    if n == parts.len() - 1 {
        assert(parts.take(n) =~= front);
    } else {
        item_of_joined(front, n, i);
        assert(front.take(n) =~= parts.take(n));
    }
}

/// How many Gaussians the rows in front of the given one come to.
proof fn joined_rows_have_their_instances(result: DataResult, row: int)
    requires
        row == 0 || is_complete_row(result, row - 1),
    ensures
        result.rows().take(row).flatten().len() == instances_before(result, row),
    decreases row,
{
    let rows = result.rows();
    if row == 0 {
        assert(rows.take(0) =~= Seq::<Seq<GaussianView>>::empty());
    } else {
        joined_rows_have_their_instances(result, row - 1);
        assert(rows.take(row) =~= rows.take(row - 1).push(rows[row - 1]));
        rows.take(row - 1).lemma_flatten_push(rows[row - 1]);
        assert(rows[row - 1].len() == complete_instances(result, row - 1));
    }
}

/// Every complete instance becomes one Gaussian, of the rotation, the position, the colour, the
/// harmonics and the scale that were logged for it, in the order of the rows and of the instances in
/// each.
pub proof fn law_a_gaussian_is_what_was_logged(
    result: DataResult,
    out: Gaussians,
    row: int,
    instance: int,
)
    requires
        DataResult::gaussians.ensures((&result,), out),
        is_complete_instance(result, row, instance),
    ensures
        0 <= instances_before(result, row) + instance < out.gaussians@.len(),
        is_made_of(
            out.gaussians@[instances_before(result, row) + instance],
            result.rots@[row]@[instance],
            result.poss@[row]@[instance],
            result.colors@[row]@[instance],
            logged_harmonics(result, row, instance),
            result.scales@[row]@[instance],
        ),
{
    let at = instances_before(result, row) + instance;
    joined_rows_have_their_instances(result, row);
    item_of_joined(result.rows(), row, instance);
    law_values_tell_every_part(out, at);
    assert(out.gaussians@[at]@ == result.instance(row, instance));
    assert(result.harmonics(row, instance) =~= logged_harmonics(result, row, instance));
    values_tell_components(
        out.gaussians@[at],
        result.rots@[row]@[instance],
        result.poss@[row]@[instance],
        result.colors@[row]@[instance],
        logged_harmonics(result, row, instance),
        result.scales@[row]@[instance],
    );
}

/// Nothing but complete instances becomes a Gaussian: there are as many as the rows in front of an
/// incomplete one have complete instances.
pub proof fn law_only_what_was_logged_becomes_a_gaussian(
    result: DataResult,
    out: Gaussians,
    end: int,
)
    requires
        DataResult::gaussians.ensures((&result,), out),
        0 <= end,
        !is_complete_row(result, end),
    ensures
        out.gaussians@.len() == instances_before(result, end),
        out.gaussians@.len() == result.all_gaussians().len(),
    decreases end,
{
    law_values_tell_every_part(out, 0);
    if end == 0 || is_complete_row(result, end - 1) {
        joined_rows_have_their_instances(result, end);
        assert(result.rows().take(end) =~= result.rows());
    } else {
        law_only_what_was_logged_becomes_a_gaussian(result, out, end - 1);
    }
}

/// An entity has a Gaussian exactly if some instance of it is complete.
pub proof fn law_an_entity_with_an_instance_has_one(result: DataResult, r: bool)
    requires
        DataResult::has_instance.ensures((&result,), r),
    ensures
        r <==> exists|row: int, instance: int| is_complete_instance(result, row, instance),
        r <==> result.all_gaussians().len() > 0,
{
    crate::gaussians::visualizer_laws::law_an_entity_is_empty_iff_all_its_rows_are(result);
    if r {
        let row = choose|row: int|
            0 <= row < result.row_count() && #[trigger] result.instance_count(row) != 0;
        assert(is_complete_instance(result, row, 0));
    }
    if exists|row: int, instance: int| is_complete_instance(result, row, instance) {
        let (row, instance) = choose|row: int, instance: int|
            is_complete_instance(result, row, instance);
        assert(result.instance_count(row) != 0);
    }
}

/// The visualizer's value tells what it holds: the entities in their order, and of each every Gaussian
/// in its order.
pub proof fn law_the_visualizer_holds_its_entries(visualizer: Gaussians3DVisualizer, i: int)
    ensures
        visualizer@.len() == visualizer.gaussians@.len(),
        0 <= i < visualizer@.len() ==> {
            &&& visualizer@[i].0 == visualizer.gaussians@[i].0@
            &&& visualizer@[i].1 == visualizer.gaussians@[i].1@
        },
{
}

} // verus!
