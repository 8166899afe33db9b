//! Draw batches of a cooked map expanded for the desktop renderer. Every
//! triangle gets three fresh indices in order; consecutive triangles that
//! share a texture, a batch kind and a lightmap page are drawn by one batch,
//! so the batches tile the index buffer front to back and no two neighbours
//! could have been merged.
use vstd::prelude::*;

verus! {

/// A run of indices drawn with one texture, batch kind and lightmap page.
#[derive(Clone, Copy, Debug, PartialEq, Eq, Structural)]
pub struct DrawBatch {
    pub texture: usize,
    pub kind: u32,
    pub lm_page: usize,
    pub first_index: u32,
    pub index_count: u32,
}

/// Whether a triangle with this texture, kind and page continues `batch`.
pub open spec fn same_draw(batch: DrawBatch, texture: usize, kind: u32, lm_page: usize) -> bool {
    batch.texture == texture && batch.kind == kind && batch.lm_page == lm_page
}

/// Indices the batches cover: up to the end of the last one.
pub open spec fn covered(batches: Seq<DrawBatch>) -> nat {
    if batches.len() == 0 {
        0
    } else {
        (batches.last().first_index + batches.last().index_count) as nat
    }
}

/// The batches tile `0..covered` in order with whole triangles, and no two
/// neighbours share texture, kind and page.
pub open spec fn tiles(batches: Seq<DrawBatch>) -> bool {
    &&& batches.len() > 0 ==> batches[0].first_index == 0
    &&& forall|i: int|
        0 <= i < batches.len() ==> {
            &&& (#[trigger] batches[i]).index_count > 0
            &&& batches[i].index_count % 3 == 0
        }
    &&& forall|i: int|
        0 < i < batches.len() ==> {
            &&& (#[trigger] batches[i]).first_index == batches[i - 1].first_index
                + batches[i - 1].index_count
            &&& !same_draw(batches[i - 1], batches[i].texture, batches[i].kind, batches[i].lm_page)
        }
}

/// The batches of the triangles added so far.
pub struct MapBatches {
    batches: Vec<DrawBatch>,
}

impl MapBatches {
    pub closed spec fn batches(self) -> Seq<DrawBatch> {
        self.batches@
    }

    #[verifier::type_invariant]
    closed spec fn tiled(self) -> bool {
        &&& tiles(self.batches@)
        &&& covered(self.batches@) <= u32::MAX
    }

    pub fn new() -> (r: Self)
        ensures
            r.batches() == Seq::<DrawBatch>::empty(),
    {
        MapBatches { batches: Vec::new() }
    }

    /// Adds one triangle drawn with `texture`, `kind` and `lm_page`, and
    /// returns the first of its three indices. The last batch grows when it
    /// draws the same way; otherwise a batch starts at that index.
    pub fn add_triangle(&mut self, texture: usize, kind: u32, lm_page: usize) -> (first: u32)
        requires
            covered(old(self).batches()) + 3 <= u32::MAX,
        ensures
            first == covered(old(self).batches()),
            covered(final(self).batches()) == first + 3,
            tiles(final(self).batches()),
            old(self).batches().len() > 0 && same_draw(
                old(self).batches().last(),
                texture,
                kind,
                lm_page,
            ) ==> final(self).batches() == old(self).batches().update(
                old(self).batches().len() - 1,
                DrawBatch {
                    index_count: (old(self).batches().last().index_count + 3) as u32,
                    ..old(self).batches().last()
                },
            ),
            !(old(self).batches().len() > 0 && same_draw(
                old(self).batches().last(),
                texture,
                kind,
                lm_page,
            )) ==> final(self).batches() == old(self).batches().push(
                DrawBatch { texture, kind, lm_page, first_index: first, index_count: 3 },
            ),
    {
        proof {
            use_type_invariant(&*self);
        }
        let mut batches = Vec::new();
        std::mem::swap(&mut batches, &mut self.batches);
        let n = batches.len();
        let mut first: u32 = 0;
        if n > 0 {
            let last = batches[n - 1];
            first = last.first_index + last.index_count;
            if last.texture == texture && last.kind == kind && last.lm_page == lm_page {
                batches.set(n - 1, DrawBatch { index_count: last.index_count + 3, ..last });
                self.batches = batches;
                return first;
            }
        }
        batches.push(DrawBatch { texture, kind, lm_page, first_index: first, index_count: 3 });
        self.batches = batches;
        first
    }

    /// The batches in drawing order.
    pub fn into_batches(self) -> (r: Vec<DrawBatch>)
        ensures
            r@ == self.batches(),
            tiles(r@),
    {
        proof {
            use_type_invariant(&self);
        }
        self.batches
    }
}

} // verus!
