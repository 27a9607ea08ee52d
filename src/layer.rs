use vstd::prelude::*;
use crate::feature::{Defn, Feature};
use crate::geometry::{Geometry, GeometryState, OGRERR_NONE};

verus! {

/// A layer of a vector dataset: the native layer handle, which the dataset
/// owns, and the layer's schema.
///
/// The position of the feature cursor lives in the native layer, not in a
/// `FeatureIterator`: two live iterators over one layer share it.
#[derive(Debug)]
pub struct Layer {
    c_layer: usize,
    defn: Defn,
}

impl Layer {
    /// The native layer handle.
    pub closed spec fn spec_c_layer(&self) -> usize {
        self.c_layer
    }

    /// The layer's schema.
    pub closed spec fn spec_defn(&self) -> Defn {
        self.defn
    }

    /// A layer with the native handle `c_layer` and the schema that the
    /// engine reported for it.
    pub fn _with_c_layer(c_layer: usize, defn: Defn) -> (r: Layer)
        ensures
            r.spec_c_layer() == c_layer,
            r.spec_defn() == defn,
    {
        Layer { c_layer, defn }
    }

    /// The native layer handle. The dataset owns it: a layer never releases it.
    pub fn c_layer(&self) -> (r: usize)
        ensures
            r == self.spec_c_layer(),
    {
        self.c_layer
    }

    /// A fresh cursor over the features of this layer. The cursor's position
    /// lives in the native layer, so `reset_reading` first makes the
    /// engine's call that rewinds it, on the layer handle: the first advance
    /// then returns the layer's first feature. This also rewinds any other
    /// live iterator over the layer.
    pub fn features<F: FnOnce(usize)>(&self, reset_reading: F) -> (r: FeatureIterator<'_>)
        requires
            call_requires(reset_reading, (self.spec_c_layer(),)),
        ensures
            call_ensures(reset_reading, (self.spec_c_layer(),), ()),
            r.spec_layer() == *self,
    {
        reset_reading(self.c_layer);
        FeatureIterator::_with_layer(self)
    }

    /// The arguments of the engine's call that narrows iteration to features
    /// meeting `geometry`: the layer handle and the geometry's handle.
    pub fn set_spatial_filter(&self, geometry: &Geometry) -> (r: (usize, usize))
        requires
            geometry.handle() is Some,
        ensures
            r == (self.spec_c_layer(), geometry.handle()->Some_0),
    {
        (self.c_layer, geometry.c_geometry())
    }

    /// The arguments of the engine's call that removes the spatial filter:
    /// the layer handle and the null handle.
    pub fn clear_spatial_filter(&self) -> (r: (usize, usize))
        ensures
            r == (self.spec_c_layer(), 0usize),
    {
        (self.c_layer, 0)
    }

    /// The layer's schema.
    pub fn defn(&self) -> (r: &Defn)
        ensures
            *r == self.spec_defn(),
    {
        &self.defn
    }

    /// Writes a new feature with `geometry` to this layer; the geometry's
    /// object moves into the feature, so `geometry` must own it. The engine's
    /// calls are made in this order: `new_feature` creates a native feature
    /// from the schema handle; `geometry` gives its object up; `set_geometry`
    /// attaches that object to the feature; `write` submits the feature to
    /// the layer. The last two must report success, so each asserts its
    /// status. Should one fail anyway, `geometry` already releases nothing.
    pub fn create_feature<
        N: FnOnce(usize) -> usize,
        S: FnOnce(usize, usize) -> i32,
        W: FnOnce(usize, usize) -> i32,
    >(&mut self, geometry: &mut Geometry, new_feature: N, set_geometry: S, write: W)
        requires
            old(geometry).owned(),
            call_requires(new_feature, (old(self).spec_defn().spec_c_defn(),)),
            forall|c_feature: usize|
                call_requires(set_geometry, (c_feature, old(geometry).handle()->Some_0)),
            forall|c_feature: usize, rv: i32|
                call_ensures(set_geometry, (c_feature, old(geometry).handle()->Some_0), rv)
                    ==> rv == OGRERR_NONE,
            forall|c_feature: usize| call_requires(write, (old(self).spec_c_layer(), c_feature)),
            forall|c_feature: usize, rv: i32|
                call_ensures(write, (old(self).spec_c_layer(), c_feature), rv) ==> rv
                    == OGRERR_NONE,
        ensures
            *final(self) == *old(self),
            final(geometry).view_state() == GeometryState::Aliased(old(geometry).handle()->Some_0),
            final(geometry).wf(),
            exists|c_feature: usize|
                {
                    &&& call_ensures(new_feature, (old(self).spec_defn().spec_c_defn(),), c_feature)
                    &&& call_ensures(
                        set_geometry,
                        (c_feature, old(geometry).handle()->Some_0),
                        OGRERR_NONE,
                    )
                    &&& call_ensures(write, (old(self).spec_c_layer(), c_feature), OGRERR_NONE)
                },
    {
        let ghost h = geometry.handle()->Some_0;
        assert(h == old(geometry).handle()->Some_0);
        let c_feature = new_feature(self.defn.c_defn());
        let c_geometry = geometry.into_c_geometry();
        proof {
            assert(c_geometry == h);
            assert(call_requires(set_geometry, (c_feature, c_geometry)));
            assert(call_requires(write, (self.spec_c_layer(), c_feature)));
        }
        let rv = set_geometry(c_feature, c_geometry);
        let rv2 = write(self.c_layer, c_feature);
        proof {
            assert(rv == OGRERR_NONE);
            assert(rv2 == OGRERR_NONE);
        }
    }
}

/// A single-pass cursor over the features of a layer. It holds only a
/// borrow of the layer; each advance hands in the handle that the engine's
/// "next feature" call returned.
#[derive(Debug)]
pub struct FeatureIterator<'a> {
    layer: &'a Layer,
}

/// What advancing over `layer` with the cursor's handle `c_feature` gives:
/// the end exactly on the null handle, and otherwise a feature that owns
/// that handle, follows the layer's schema, and has no geometry bound yet.
pub open spec fn advance_post<'a>(layer: Layer, c_feature: usize, r: Option<Feature<'a>>) -> bool {
    &&& (c_feature == 0 <==> r is None)
    &&& r is Some ==> {
        let f = r->Some_0;
        &&& f.spec_c_feature() == c_feature
        &&& f.spec_defn() == layer.spec_defn()
        &&& f.spec_geometry().view_state() == GeometryState::Unbound
    }
}

impl<'a> FeatureIterator<'a> {
    /// The layer iterated over.
    pub closed spec fn spec_layer(&self) -> Layer {
        *self.layer
    }

    /// A cursor over the features of `layer`.
    pub fn _with_layer(layer: &'a Layer) -> (r: FeatureIterator<'a>)
        ensures
            r.spec_layer() == *layer,
    {
        FeatureIterator { layer }
    }

    /// The native layer handle whose cursor is advanced.
    pub fn c_layer(&self) -> (r: usize)
        ensures
            r == self.spec_layer().spec_c_layer(),
    {
        self.layer.c_layer()
    }

    /// Advances with the handle that the cursor returned: `None` on the null
    /// handle, which ends the iteration, and a new feature otherwise.
    pub fn next(&mut self, c_feature: usize) -> (r: Option<Feature<'a>>)
        ensures
            final(self).spec_layer() == old(self).spec_layer(),
            advance_post(old(self).spec_layer(), c_feature, r),
    {
        if c_feature == 0 {
            None
        } else {
            Some(Feature::_with_c_feature(self.layer.defn(), c_feature))
        }
    }
}

/// Over a cursor that returns `n` non-null handles and then the null handle,
/// the iteration yields exactly `n` features, each owning the handle of its
/// step in the cursor's order, and then its end.
pub proof fn lemma_yields_each_feature_then_ends<'a>(
    layer: Layer,
    cursor: Seq<usize>,
    results: Seq<Option<Feature<'a>>>,
)
    requires
        cursor.len() > 0,
        results.len() == cursor.len(),
        forall|i: int| 0 <= i < cursor.len() - 1 ==> cursor[i] != 0,
        cursor.last() == 0,
        forall|i: int| 0 <= i < cursor.len() ==> advance_post(layer, #[trigger] cursor[i], results[i]),
    ensures
        forall|i: int|
            0 <= i < cursor.len() - 1 ==> #[trigger] results[i] is Some && results[i]->Some_0.spec_c_feature()
                == cursor[i],
        results.last() is None,
{
    assert(advance_post(layer, cursor[cursor.len() - 1], results[cursor.len() - 1]));
    assert forall|i: int| 0 <= i < cursor.len() - 1 implies #[trigger] results[i] is Some
        && results[i]->Some_0.spec_c_feature() == cursor[i] by {
        assert(advance_post(layer, cursor[i], results[i]));
    }
}

} // verus!
