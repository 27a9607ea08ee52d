use vstd::prelude::*;
use vstd::string::StringExecFns;

verus! {

/// The status code with which the native engine reports success.
pub const OGRERR_NONE: i32 = 0;

/// How a `Geometry` stands towards its native object.
#[derive(Clone, Copy, Debug, PartialEq, Eq, Structural)]
pub enum GeometryState {
    /// No handle yet: a feature's geometry that has not been queried.
    Unbound,
    /// The wrapper owns the native object and releases it exactly once.
    Owned(usize),
    /// The native object belongs to a parent; the wrapper never releases it.
    Aliased(usize),
}

/// A value that can be converted into a geometry.
pub trait ToGdal {
    fn to_gdal(&self) -> Geometry;
}

/// A geometry wrapper: a native handle together with who owns it.
#[derive(Debug)]
pub struct Geometry {
    state: GeometryState,
}

impl Geometry {
    /// The state of the wrapper.
    pub closed spec fn view_state(&self) -> GeometryState {
        self.state
    }

    /// The native handle, once bound.
    pub open spec fn handle(&self) -> Option<usize> {
        match self.view_state() {
            GeometryState::Unbound => None,
            GeometryState::Owned(h) => Some(h),
            GeometryState::Aliased(h) => Some(h),
        }
    }

    /// Whether dropping this wrapper must release the native object.
    pub open spec fn owned(&self) -> bool {
        self.view_state() is Owned
    }

    /// An owned geometry always holds a non-null handle.
    pub open spec fn wf(&self) -> bool {
        match self.view_state() {
            GeometryState::Owned(h) => h != 0,
            _ => true,
        }
    }

    /// A geometry with no handle yet, whose object will belong to a feature.
    pub fn lazy_feature_geometry() -> (r: Geometry)
        ensures
            r.view_state() == GeometryState::Unbound,
            r.wf(),
    {
        Geometry { state: GeometryState::Unbound }
    }

    /// The state of the wrapper.
    pub fn state(&self) -> (r: GeometryState)
        ensures
            r == self.view_state(),
    {
        self.state
    }

    /// Whether a native handle is bound.
    pub fn has_gdal_ptr(&self) -> (r: bool)
        ensures
            r == self.handle().is_some(),
    {
        match self.state {
            GeometryState::Unbound => false,
            _ => true,
        }
    }

    /// Whether dropping this wrapper must release the native object.
    pub fn is_owned(&self) -> (r: bool)
        ensures
            r == self.owned(),
    {
        match self.state {
            GeometryState::Owned(_) => true,
            _ => false,
        }
    }

    /// Binds the handle of a lazy feature geometry. A handle is bound at
    /// most once, and only into a geometry that does not own an object:
    /// binding a geometry that already has a handle is a programming error.
    pub fn set_c_geometry(&mut self, c_geometry: usize)
        requires
            old(self).handle() is None,
        ensures
            final(self).view_state() == GeometryState::Aliased(c_geometry),
            final(self).wf(),
    {
        self.state = GeometryState::Aliased(c_geometry);
    }

    fn with_c_geometry(c_geom: usize, owned: bool) -> (r: Geometry)
        ensures
            r.view_state() == (if owned {
                GeometryState::Owned(c_geom)
            } else {
                GeometryState::Aliased(c_geom)
            }),
    {
        if owned {
            Geometry { state: GeometryState::Owned(c_geom) }
        } else {
            Geometry { state: GeometryState::Aliased(c_geom) }
        }
    }

    /// Wraps the handle that the engine returned for a new empty geometry of
    /// some well-known-binary type. The result owns the object. A null
    /// handle is a failed allocation, which is fatal, not recoverable.
    pub fn empty(c_geom: usize) -> (r: Geometry)
        requires
            c_geom != 0,
        ensures
            r.view_state() == GeometryState::Owned(c_geom),
            r.wf(),
    {
        Geometry::with_c_geometry(c_geom, true)
    }

    /// Wraps the outcome of parsing well-known text: the status code `rv`
    /// and the handle that the parser produced. The result owns the object.
    /// Only the success code is accepted: malformed text is fatal.
    pub fn from_wkt(rv: i32, c_geom: usize) -> (r: Geometry)
        requires
            rv == OGRERR_NONE,
            c_geom != 0,
        ensures
            r.view_state() == GeometryState::Owned(c_geom),
            r.wf(),
    {
        Geometry::empty(c_geom)
    }

    /// Wraps the handle of a convex hull computed by the engine: a new object,
    /// owned by the result, or `None` when the engine handed back a null
    /// handle.
    pub fn convex_hull(&self, c_hull: usize) -> (r: Option<Geometry>)
        ensures
            c_hull == 0 <==> r is None,
            r is Some ==> r->Some_0.view_state() == GeometryState::Owned(c_hull) && r->Some_0.wf(),
    {
        if c_hull == 0 {
            None
        } else {
            Some(Geometry::empty(c_hull))
        }
    }

    /// The bound native handle.
    pub fn c_geometry(&self) -> (r: usize)
        requires
            self.handle().is_some(),
        ensures
            self.handle() == Some(r),
    {
        match self.state {
            GeometryState::Owned(h) => h,
            GeometryState::Aliased(h) => h,
            GeometryState::Unbound => 0,
        }
    }

    /// The `n`-th part of this geometry, given the handle that the engine
    /// returned for it. The part belongs to this geometry: the result never
    /// releases it, and must not outlive its parent.
    pub fn _get_geometry(&self, c_part: usize) -> (r: Geometry)
        ensures
            r.view_state() == GeometryState::Aliased(c_part),
            r.wf(),
    {
        Geometry::with_c_geometry(c_part, false)
    }

    /// Gives up ownership of the native object and returns its handle. Only
    /// a geometry that owns its object can hand it over. Afterwards the
    /// geometry keeps the handle as an alias only, so dropping it releases
    /// nothing.
    pub fn into_c_geometry(&mut self) -> (r: usize)
        requires
            old(self).owned(),
        ensures
            old(self).handle() == Some(r),
            final(self).view_state() == GeometryState::Aliased(r),
            final(self).wf(),
    {
        match self.state {
            GeometryState::Owned(h) => {
                self.state = GeometryState::Aliased(h);
                h
            },
            GeometryState::Aliased(h) => h,
            GeometryState::Unbound => 0,
        }
    }

    /// Attaches `sub` to this geometry as a new part, moving the ownership of
    /// its object into this one. `sub` must own its object. It gives the
    /// object up first, and then `attach` makes the engine's call on the
    /// handles `(parent, part)`. That call must report success, so `attach`
    /// asserts its status. Should it fail anyway, `sub` already releases
    /// nothing. The parent wrapper does not change.
    pub fn add_geometry<F: FnOnce(usize, usize) -> i32>(&mut self, sub: &mut Geometry, attach: F)
        requires
            old(self).handle() is Some,
            old(sub).owned(),
            call_requires(attach, (old(self).handle()->Some_0, old(sub).handle()->Some_0)),
            forall|rv: i32|
                call_ensures(attach, (old(self).handle()->Some_0, old(sub).handle()->Some_0), rv)
                    ==> rv == OGRERR_NONE,
        ensures
            *final(self) == *old(self),
            final(sub).view_state() == GeometryState::Aliased(old(sub).handle()->Some_0),
            final(sub).wf(),
            call_ensures(
                attach,
                (old(self).handle()->Some_0, old(sub).handle()->Some_0),
                OGRERR_NONE,
            ),
    {
        let parent = self.c_geometry();
        let part = sub.into_c_geometry();
        let rv = attach(parent, part);
        proof {
            assert(rv == OGRERR_NONE);
        }
    }

    /// The well-known text of the rectangle with the given west, south, east
    /// and north coordinates, each given by its text: a polygon whose ring
    /// runs north-west, north-east, south-east, south-west and closes at
    /// north-west. Parsing it gives the bounding box geometry.
    pub fn bbox(w: &str, s: &str, e: &str, n: &str) -> (r: String)
        ensures
            r@ == polygon_text(bbox_ring(w@, s@, e@, n@)),
    {
        let mut ring: Vec<(String, String)> = Vec::new();
        ring.push((String::from_str(w), String::from_str(n)));
        ring.push((String::from_str(e), String::from_str(n)));
        ring.push((String::from_str(e), String::from_str(s)));
        ring.push((String::from_str(w), String::from_str(s)));
        ring.push((String::from_str(w), String::from_str(n)));
        let r = polygon_wkt(&ring);
        proof {
            assert(ring_view(ring@) =~= bbox_ring(w@, s@, e@, n@));
        }
        r
    }

    /// Reads every point of this geometry, in order: `get_point` is called
    /// on each index from `0` up to `count - 1`, where `count` is the point
    /// count that the engine reported.
    pub fn get_point_vec<T, F: Fn(i32) -> T>(&self, count: i32, get_point: F) -> (r: Vec<T>)
        requires
            self.handle().is_some(),
            forall|i: i32| 0 <= i < count ==> call_requires(get_point, (i,)),
        ensures
            r.len() == (if count < 0 {
                0
            } else {
                count as int
            }),
            forall|i: int| 0 <= i < r.len() ==> call_ensures(get_point, (i as i32,), #[trigger] r[i]),
    {
        let mut r: Vec<T> = Vec::new();
        let mut i: i32 = 0;
        while i < count
            invariant
                0 <= i,
                count >= 0 ==> i <= count,
                count < 0 ==> i == 0,
                r.len() == i,
                forall|j: i32| 0 <= j < count ==> call_requires(get_point, (j,)),
                forall|j: int| 0 <= j < r.len() ==> call_ensures(get_point, (j as i32,), #[trigger] r[j]),
            decreases count - i,
        {
            let p = get_point(i);
            r.push(p);
            i = i + 1;
        }
        r
    }

    /// The handle that dropping this wrapper must release: its own object
    /// when it owns one, and nothing otherwise.
    pub fn handle_to_release(&self) -> (r: Option<usize>)
        ensures
            r is Some <==> self.owned(),
            r is Some ==> self.handle() == r,
    {
        match self.state {
            GeometryState::Owned(h) => Some(h),
            _ => None,
        }
    }
}

/// The text of one coordinate pair: `x y`.
pub open spec fn coord_text(p: (Seq<char>, Seq<char>)) -> Seq<char> {
    p.0 + seq![' '] + p.1
}

/// The coordinate pairs of a ring, in order, separated by `, `.
pub open spec fn coords_text(ps: Seq<(Seq<char>, Seq<char>)>) -> Seq<char>
    decreases ps.len(),
{
    if ps.len() == 0 {
        Seq::empty()
    } else if ps.len() == 1 {
        coord_text(ps[0])
    } else {
        coords_text(ps.drop_last()) + seq![',', ' '] + coord_text(ps.last())
    }
}

/// The opening of a polygon's well-known text.
pub open spec fn polygon_open() -> Seq<char> {
    seq!['P', 'O', 'L', 'Y', 'G', 'O', 'N', ' ', '(', '(']
}

/// The well-known text of a polygon with the single ring `ring`:
/// `POLYGON ((x y, x y, ...))`.
pub open spec fn polygon_text(ring: Seq<(Seq<char>, Seq<char>)>) -> Seq<char> {
    polygon_open() + coords_text(ring) + seq![')', ')']
}

/// The text of each coordinate pair of `ring`.
pub open spec fn ring_view(ring: Seq<(String, String)>) -> Seq<(Seq<char>, Seq<char>)> {
    ring.map_values(|p: (String, String)| (p.0@, p.1@))
}

/// The closed ring of a bounding box, as its coordinates' texts:
/// north-west, north-east, south-east, south-west, and north-west again.
pub open spec fn bbox_ring(w: Seq<char>, s: Seq<char>, e: Seq<char>, n: Seq<char>) -> Seq<
    (Seq<char>, Seq<char>),
> {
    seq![(w, n), (e, n), (e, s), (w, s), (w, n)]
}

/// The well-known text of a polygon whose single ring is `ring`, each
/// coordinate given by its text.
pub fn polygon_wkt(ring: &Vec<(String, String)>) -> (r: String)
    ensures
        r@ == polygon_text(ring_view(ring@)),
{
    let mut r = String::from_str("POLYGON ((");
    proof {
        reveal_strlit("POLYGON ((");
        reveal_strlit(", ");
        reveal_strlit(" ");
        reveal_strlit("))");
        assert(ring_view(ring@).take(0) =~= Seq::empty());
    }
    let ghost view = ring_view(ring@);
    let mut i: usize = 0;
    while i < ring.len()
        invariant
            i <= ring.len(),
            view == ring_view(ring@),
            r@ == polygon_open() + coords_text(view.take(i as int)),
        decreases ring.len() - i,
    {
        let ghost before = r@;
        proof {
            reveal_strlit(", ");
            reveal_strlit(" ");
        }
        if i > 0 {
            r.append(", ");
        }
        r.append(ring[i].0.as_str());
        r.append(" ");
        r.append(ring[i].1.as_str());
        proof {
            assert(view.take(i + 1).drop_last() =~= view.take(i as int));
            assert(view.take(i + 1).last() == (ring@[i as int].0@, ring@[i as int].1@));
            let p = (ring@[i as int].0@, ring@[i as int].1@);
            if i == 0 {
                assert(view.take(1).len() == 1);
                assert(r@ =~= before + coord_text(p));
                assert(coords_text(view.take(0)) =~= Seq::empty());
            } else {
                assert(r@ =~= before + seq![',', ' '] + coord_text(p));
            }
        }
        i = i + 1;
    }
    proof {
        reveal_strlit("))");
    }
    r.append("))");
    proof {
        assert(view.take(i as int) =~= view);
    }
    r
}

/// A bounding box's ring has five points, in this order: (west, north),
/// (east, north), (east, south), (west, south), and (west, north) again, so
/// that the ring is closed.
pub proof fn lemma_bbox_ring(w: Seq<char>, s: Seq<char>, e: Seq<char>, n: Seq<char>)
    ensures
        bbox_ring(w, s, e, n).len() == 5,
        bbox_ring(w, s, e, n)[0] == (w, n),
        bbox_ring(w, s, e, n)[1] == (e, n),
        bbox_ring(w, s, e, n)[2] == (e, s),
        bbox_ring(w, s, e, n)[3] == (w, s),
        bbox_ring(w, s, e, n)[4] == bbox_ring(w, s, e, n)[0],
{
}

/// A lazy feature geometry is bound once: once a handle is bound, the
/// geometry has one, so binding it again is outside what `set_c_geometry`
/// admits; and the bound handle belongs to the feature, never to the wrapper.
pub proof fn lemma_bind_once(g0: Geometry, g1: Geometry, c_geometry: usize)
    requires
        g0.view_state() == GeometryState::Unbound,
        g1.view_state() == GeometryState::Aliased(c_geometry),
    ensures
        !(g1.handle() is None),
        g1.handle() == Some(c_geometry),
        !g1.owned(),
{
}

/// Once a part has been attached, it no longer owns its object: attaching
/// it again, to any parent, or handing its object over in any other way, is
/// outside what `add_geometry`, `into_c_geometry` and `create_feature`
/// admit; and dropping it releases nothing.
pub proof fn lemma_attached_part_not_owned(sub0: Geometry, sub1: Geometry)
    requires
        sub0.owned(),
        sub1.view_state() == GeometryState::Aliased(sub0.handle()->Some_0),
    ensures
        !sub1.owned(),
        sub1.handle() == sub0.handle(),
{
}

} // verus!
