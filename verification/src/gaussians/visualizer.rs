//! Collecting the Gaussians of every entity that is visible.
use vstd::prelude::*;

use crate::gaussians::model::{assembled, values, Gaussian, GaussianView, Gaussians};
use crate::gaussians::renderer::{
    can_bind, can_make_draw_data, completes, entries_for, is_draw_data_of, Buffers,
    Gaussians3DDrawData, GpuTypes, PipelineMakers, Pipelines, ResourceMakers,
};
use crate::gaussians::visualizer_laws::law_an_entity_is_empty_iff_all_its_rows_are;
use crate::math::{Float32, Quat, Vec3};

verus! {

/// What a query for the Gaussians of an entity came back with: for each component the logged rows,
/// and in each row one value per instance.
pub struct DataResult {
    pub entity_path: String,
    pub rots: Vec<Vec<Quat>>,
    pub poss: Vec<Vec<Vec3>>,
    pub colors: Vec<Vec<u32>>,
    pub shs: Vec<Vec<[Float32; 45]>>,
    pub scales: Vec<Vec<Vec3>>,
}

/// The smaller of two numbers.
pub open spec fn least(a: nat, b: nat) -> nat {
    if a <= b {
        a
    } else {
        b
    }
}

impl DataResult {
    /// How many rows are complete. Harmonics are optional: they only count if any were logged.
    pub open spec fn row_count(self) -> nat {
        let required = least(
            least(self.rots@.len(), self.poss@.len()),
            least(self.colors@.len(), self.scales@.len()),
        );
        if self.shs@.len() == 0 {
            required
        } else {
            least(required, self.shs@.len())
        }
    }

    /// How many instances of a row are complete. Harmonics do not count here.
    pub open spec fn instance_count(self, row: int) -> nat {
        least(
            least(self.rots@[row]@.len(), self.poss@[row]@.len()),
            least(self.colors@[row]@.len(), self.scales@[row]@.len()),
        )
    }

    /// The harmonics of an instance: zero where none were logged.
    pub open spec fn harmonics(self, row: int, instance: int) -> Seq<Float32> {
        if row < self.shs@.len() && instance < self.shs@[row]@.len() {
            self.shs@[row]@[instance]@
        } else {
            Seq::new(45, |i: int| Float32::zero())
        }
    }

    /// The Gaussian of an instance.
    pub open spec fn instance(self, row: int, instance: int) -> GaussianView {
        assembled(
            self.rots@[row]@[instance],
            self.poss@[row]@[instance],
            self.colors@[row]@[instance],
            self.harmonics(row, instance),
            self.scales@[row]@[instance],
        )
    }

    /// The Gaussians of a row.
    pub open spec fn row(self, row: int) -> Seq<GaussianView> {
        Seq::new(self.instance_count(row), |i: int| self.instance(row, i))
    }

    /// The Gaussians of each complete row.
    pub open spec fn rows(self) -> Seq<Seq<GaussianView>> {
        Seq::new(self.row_count(), |i: int| self.row(i))
    }

    /// All Gaussians of the entity, row after row.
    pub open spec fn all_gaussians(self) -> Seq<GaussianView> {
        self.rows().flatten()
    }

    /// Adds the Gaussians of a row.
    fn push_row(&self, row: usize, gaussians: &mut Vec<Gaussian>)
        requires
            row < self.row_count(),
        ensures
            values(final(gaussians)@) == values(old(gaussians)@) + self.row(row as int),
    {
        let no_harmonics: [Float32; 45] = [Float32::zero();45];
        assert(no_harmonics@ =~= Seq::new(45, |i: int| Float32::zero()));
        let ghost before = values(gaussians@);
        let rots = &self.rots[row];
        let poss = &self.poss[row];
        let colors = &self.colors[row];
        let scales = &self.scales[row];
        let mut i: usize = 0;
        assert(values(gaussians@) =~= before + self.row(row as int).take(0));
        while i < rots.len() && i < poss.len() && i < colors.len() && i < scales.len()
            invariant
                row < self.row_count(),
                rots@ == self.rots@[row as int]@,
                poss@ == self.poss@[row as int]@,
                colors@ == self.colors@[row as int]@,
                scales@ == self.scales@[row as int]@,
                i <= self.instance_count(row as int),
                no_harmonics@ == Seq::new(45, |i: int| Float32::zero()),
                values(gaussians@) == before + self.row(row as int).take(i as int),
            decreases rots.len() - i,
        {
            let sh = if row < self.shs.len() && i < self.shs[row].len() {
                &self.shs[row][i]
            } else {
                &no_harmonics
            };
            let gaussian = Gaussian::assemble(rots[i], poss[i], colors[i], sh, scales[i]);
            let ghost earlier = values(gaussians@);
            gaussians.push(gaussian);
            proof {
                let all = self.row(row as int);
                assert(values(gaussians@) =~= earlier.push(all[i as int]));
                assert(all.take(i + 1) =~= all.take(i as int).push(all[i as int]));
            }
            i = i + 1;
        }
        assert(self.row(row as int).take(i as int) =~= self.row(row as int));
    }

    /// Puts the Gaussians of the entity together.
    pub fn gaussians(&self) -> (r: Gaussians)
        ensures
            r@ == self.all_gaussians(),
    {
        let mut gaussians: Vec<Gaussian> = Vec::new();
        let mut row: usize = 0;
        assert(values(gaussians@) =~= self.rows().take(0).flatten());
        while row < self.rots.len() && row < self.poss.len() && row < self.colors.len() && row
            < self.scales.len() && (self.shs.len() == 0 || row < self.shs.len())
            invariant
                row <= self.row_count(),
                values(gaussians@) == self.rows().take(row as int).flatten(),
            decreases self.rots.len() - row,
        {
            self.push_row(row, &mut gaussians);
            proof {
                let done = self.rows().take(row as int);
                assert(self.rows().take(row + 1) =~= done.push(self.row(row as int)));
                done.lemma_flatten_push(self.row(row as int));
            }
            row = row + 1;
        }
        assert(self.rows().take(row as int) =~= self.rows());
        Gaussians { gaussians }
    }
}

impl DataResult {
    /// Whether the entity has any Gaussian.
    pub fn has_instance(&self) -> (r: bool)
        ensures
            r == (self.all_gaussians().len() > 0),
    {
        let mut row: usize = 0;
        proof {
            law_an_entity_is_empty_iff_all_its_rows_are(*self);
        }
        while row < self.rots.len() && row < self.poss.len() && row < self.colors.len() && row
            < self.scales.len() && (self.shs.len() == 0 || row < self.shs.len())
            invariant
                row <= self.row_count(),
                forall|i: int| 0 <= i < row ==> #[trigger] self.instance_count(i) == 0,
                self.all_gaussians().len() == 0 <==> forall|i: int|
                    0 <= i < self.row_count() ==> #[trigger] self.instance_count(i) == 0,
            decreases self.rots.len() - row,
        {
            if self.rots[row].len() != 0 && self.poss[row].len() != 0 && self.colors[row].len() != 0
                && self.scales[row].len() != 0 {
                assert(self.instance_count(row as int) != 0);
                return true;
            }
            row = row + 1;
        }
        false
    }
}

/// An entity and its Gaussians.
pub type Entry = (Seq<char>, Seq<GaussianView>);

/// Whether an entry is the first one of an entity.
pub open spec fn is_first(entries: Seq<Entry>, path: Seq<char>, i: int) -> bool {
    &&& 0 <= i < entries.len()
    &&& entries[i].0 == path
    &&& forall|j: int| 0 <= j < i ==> (#[trigger] entries[j]).0 != path
}

/// The entries once an entity has the given Gaussians: in place of those it had, or at the end.
pub open spec fn upserted(
    entries: Seq<Entry>,
    path: Seq<char>,
    gaussians: Seq<GaussianView>,
) -> Seq<Entry> {
    if exists|i: int| is_first(entries, path, i) {
        entries.update(choose|i: int| is_first(entries, path, i), (path, gaussians))
    } else {
        entries.push((path, gaussians))
    }
}

/// The entries after some results came in, one after the other. A result without any Gaussian is
/// passed over.
pub open spec fn executed(entries: Seq<Entry>, results: Seq<DataResult>) -> Seq<Entry>
    decreases results.len(),
{
    if results.len() == 0 {
        entries
    } else {
        let earlier = executed(entries, results.drop_last());
        let result = results.last();
        if result.all_gaussians().len() == 0 {
            earlier
        } else {
            upserted(earlier, result.entity_path@, result.all_gaussians())
        }
    }
}

/// The Gaussians of every entity that was visible.
pub struct Gaussians3DVisualizer {
    pub gaussians: Vec<(String, Gaussians)>,
}

/// The values of some entries.
pub open spec fn entry_values(entries: Seq<(String, Gaussians)>) -> Seq<Entry> {
    entries.map_values(|e: (String, Gaussians)| (e.0@, e.1@))
}

impl View for Gaussians3DVisualizer {
    type V = Seq<Entry>;

    open spec fn view(&self) -> Seq<Entry> {
        entry_values(self.gaussians@)
    }
}

impl Default for Gaussians3DVisualizer {
    fn default() -> (r: Gaussians3DVisualizer)
        ensures
            r@ == Seq::<Entry>::empty(),
    {
        let r = Gaussians3DVisualizer { gaussians: Vec::new() };
        assert(r@ =~= Seq::<Entry>::empty());
        r
    }
}

impl Gaussians3DVisualizer {
    /// The name of this visualizer.
    pub fn identifier() -> (r: &'static str)
        ensures
            r@ == "Gaussians3D"@,
    {
        "Gaussians3D"
    }

    /// Where an entity is, if it is there.
    fn position(&self, path: &String) -> (r: Option<usize>)
        ensures
            match r {
                Some(i) => is_first(self@, path@, i as int),
                None => forall|i: int| !is_first(self@, path@, i),
            },
    {
        let mut i: usize = 0;
        while i < self.gaussians.len()
            invariant
                i <= self.gaussians.len(),
                forall|j: int| 0 <= j < i ==> (#[trigger] self@[j]).0 != path@,
            decreases self.gaussians.len() - i,
        {
            if self.gaussians[i].0 == *path {
                return Some(i);
            }
            i = i + 1;
        }
        None
    }

    /// Gives an entity its Gaussians.
    fn upsert(&mut self, path: &String, gaussians: Gaussians)
        ensures
            final(self)@ == upserted(old(self)@, path@, gaussians@),
    {
        match self.position(path) {
            Some(i) => {
                self.gaussians[i] = (path.clone(), gaussians);
            },
            None => {
                self.gaussians.push((path.clone(), gaussians));
            },
        }
        assert(self@ =~= upserted(old(self)@, path@, gaussians@));
    }

    /// Populates the visualizer with data from the store, and puts the Gaussians of every entity on
    /// the GPU, for use by the shared pipelines.
    pub fn execute<T, MakeP, MakeS, MakeG, Create, BindP, BindS, BindG>(
        &mut self,
        made: &mut Pipelines<T>,
        makers: &PipelineMakers<MakeP, MakeS, MakeG>,
        results: &Vec<DataResult>,
        resources: &ResourceMakers<Create, BindP, BindS, BindG>,
    ) -> (r: Vec<Gaussians3DDrawData<T>>) where
        T: GpuTypes,
        MakeP: Fn() -> T::Preprocessor,
        MakeS: Fn() -> T::RadixSorter,
        MakeG: Fn() -> T::Renderer,
        Create: Fn(&Gaussians, u32, u32) -> Buffers<T>,
        BindP: Fn(
            T::Preprocessor,
            &T::CameraBuffer,
            &T::ModelTransformBuffer,
            &T::GaussianTransformBuffer,
            &T::GaussiansBuffer,
            &T::IndirectArgsBuffer,
            &T::RadixSortIndirectArgsBuffer,
            &T::IndirectIndicesBuffer,
            &T::GaussiansDepthBuffer,
        ) -> T::PreprocessorBindGroup,
        BindS: Fn(
            T::RadixSorter,
            &T::GaussiansDepthBuffer,
            &T::IndirectIndicesBuffer,
        ) -> T::RadixSorterBindGroups,
        BindG: Fn(
            T::Renderer,
            &T::CameraBuffer,
            &T::ModelTransformBuffer,
            &T::GaussianTransformBuffer,
            &T::GaussiansBuffer,
            &T::IndirectIndicesBuffer,
        ) -> T::RendererBindGroup,

        requires
            forall|i: int, gaussians: Gaussians|
                0 <= i < executed(old(self)@, results@).len() && gaussians@ == (#[trigger] executed(
                    old(self)@,
                    results@,
                )[i]).1 ==> #[trigger] can_make_draw_data(
                    *old(made),
                    *makers,
                    gaussians,
                    *resources,
                ),
        ensures
            final(self)@ == executed(old(self)@, results@),
            r@.len() == final(self)@.len(),
            r@.len() == 0 ==> *final(made) == *old(made),
            r@.len() > 0 ==> completes(*old(made), *makers, *final(made)),
            forall|i: int|
                0 <= i < r@.len() ==> is_draw_data_of(
                    #[trigger] r@[i],
                    final(made).all(),
                    final(self).gaussians@[i].1,
                    *resources,
                ),
    {
        let mut i: usize = 0;
        assert(results@.take(0) =~= Seq::<DataResult>::empty());
        while i < results.len()
            invariant
                i <= results.len(),
                self@ == executed(old(self)@, results@.take(i as int)),
            decreases results.len() - i,
        {
            let result = &results[i];
            let gaussians = result.gaussians();
            proof {
                let next = results@.take(i + 1);
                assert(next.drop_last() =~= results@.take(i as int));
                assert(next.last() == results@[i as int]);
            }
            if gaussians.gaussians.len() != 0 {
                self.upsert(&result.entity_path, gaussians);
            }
            i = i + 1;
        }
        assert(results@.take(i as int) =~= results@);
        assert forall|j: int| 0 <= j < self@.len() implies can_make_draw_data(
            *old(made),
            *makers,
            (#[trigger] self.gaussians@[j]).1,
            *resources,
        ) by {
            assert(self.gaussians@[j].1@ == executed(old(self)@, results@)[j].1);
        }
        self.draw_data(made, makers, resources)
    }

    /// Puts the Gaussians of every entity on the GPU.
    fn draw_data<T, MakeP, MakeS, MakeG, Create, BindP, BindS, BindG>(
        &self,
        made: &mut Pipelines<T>,
        makers: &PipelineMakers<MakeP, MakeS, MakeG>,
        resources: &ResourceMakers<Create, BindP, BindS, BindG>,
    ) -> (r: Vec<Gaussians3DDrawData<T>>) where
        T: GpuTypes,
        MakeP: Fn() -> T::Preprocessor,
        MakeS: Fn() -> T::RadixSorter,
        MakeG: Fn() -> T::Renderer,
        Create: Fn(&Gaussians, u32, u32) -> Buffers<T>,
        BindP: Fn(
            T::Preprocessor,
            &T::CameraBuffer,
            &T::ModelTransformBuffer,
            &T::GaussianTransformBuffer,
            &T::GaussiansBuffer,
            &T::IndirectArgsBuffer,
            &T::RadixSortIndirectArgsBuffer,
            &T::IndirectIndicesBuffer,
            &T::GaussiansDepthBuffer,
        ) -> T::PreprocessorBindGroup,
        BindS: Fn(
            T::RadixSorter,
            &T::GaussiansDepthBuffer,
            &T::IndirectIndicesBuffer,
        ) -> T::RadixSorterBindGroups,
        BindG: Fn(
            T::Renderer,
            &T::CameraBuffer,
            &T::ModelTransformBuffer,
            &T::GaussianTransformBuffer,
            &T::GaussiansBuffer,
            &T::IndirectIndicesBuffer,
        ) -> T::RendererBindGroup,

        requires
            forall|i: int|
                0 <= i < self@.len() ==> can_make_draw_data(
                    *old(made),
                    *makers,
                    (#[trigger] self.gaussians@[i]).1,
                    *resources,
                ),
        ensures
            r@.len() == self@.len(),
            r@.len() == 0 ==> *final(made) == *old(made),
            r@.len() > 0 ==> completes(*old(made), *makers, *final(made)),
            forall|i: int|
                0 <= i < r@.len() ==> is_draw_data_of(
                    #[trigger] r@[i],
                    final(made).all(),
                    self.gaussians@[i].1,
                    *resources,
                ),
    {
        let mut r: Vec<Gaussians3DDrawData<T>> = Vec::new();
        let mut i: usize = 0;
        while i < self.gaussians.len()
            invariant
                i <= self.gaussians.len(),
                forall|j: int|
                    0 <= j < self@.len() ==> can_make_draw_data(
                        *old(made),
                        *makers,
                        (#[trigger] self.gaussians@[j]).1,
                        *resources,
                    ),
                r@.len() == i,
                i == 0 ==> *made == *old(made),
                i > 0 ==> completes(*old(made), *makers, *made),
                forall|j: int|
                    0 <= j < i ==> is_draw_data_of(
                        #[trigger] r@[j],
                        made.all(),
                        self.gaussians@[j].1,
                        *resources,
                    ),
            decreases self.gaussians.len() - i,
        {
            let ghost before = *made;
            let gaussians = &self.gaussians[i].1;
            proof {
                assert(can_make_draw_data(*old(made), *makers, *gaussians, *resources));
                let entries = entries_for(gaussians@.len());
                assert forall|after: Pipelines<T>, buffers: Buffers<T>|
                    completes(*made, *makers, after) && resources.buffers.ensures(
                        (gaussians, entries, entries),
                        buffers,
                    ) implies #[trigger] can_bind(buffers, after.all(), *resources) by {
                    assert(completes(*old(made), *makers, after));
                }
            }
            r.push(Gaussians3DDrawData::new(made, makers, gaussians, resources));
            assert(i > 0 ==> *made == before);
            i = i + 1;
        }
        r
    }
}

} // verus!
