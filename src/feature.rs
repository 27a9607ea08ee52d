use vstd::prelude::*;
use vstd::string::StringExecFns;
use crate::geometry::{Geometry, GeometryState};

verus! {

/// The native type code of an integer field.
pub const OFT_INTEGER: i32 = 0;

/// The native type code of a real field.
pub const OFT_REAL: i32 = 2;

/// The native type code of a string field.
pub const OFT_STRING: i32 = 4;

/// The kinds of field value that a feature can read.
#[derive(Clone, Copy, Debug, PartialEq, Eq, Structural)]
pub enum FieldKind {
    Integer,
    Real,
    Text,
}

/// Why a field could not be read.
#[derive(Clone, Copy, Debug, PartialEq, Eq, Structural)]
pub enum FieldError {
    /// The schema has no field of that name.
    FieldNotFound,
    /// The field's declared type code is not one that can be read.
    UnsupportedType(i32),
}

/// One field definition of a schema: its name and declared type code.
#[derive(Debug)]
pub struct Field {
    pub name: String,
    pub field_type: i32,
}

/// A layer's schema: the native definition handle and its ordered fields.
#[derive(Debug)]
pub struct Defn {
    c_defn: usize,
    fields: Vec<Field>,
}

/// The kind of value read from a field of the given type code, if any.
pub open spec fn kind_of(field_type: i32) -> Option<FieldKind> {
    if field_type == OFT_INTEGER {
        Some(FieldKind::Integer)
    } else if field_type == OFT_REAL {
        Some(FieldKind::Real)
    } else if field_type == OFT_STRING {
        Some(FieldKind::Text)
    } else {
        None
    }
}

impl Defn {
    /// The native definition handle.
    pub closed spec fn spec_c_defn(&self) -> usize {
        self.c_defn
    }

    /// The fields, in order, as (name, type code).
    pub closed spec fn spec_fields(&self) -> Seq<(Seq<char>, i32)> {
        self.fields@.map_values(|f: Field| (f.name@, f.field_type))
    }

    /// Whether `i` is the position of the first field named `name`.
    pub open spec fn is_first_named(&self, name: Seq<char>, i: int) -> bool {
        &&& 0 <= i < self.spec_fields().len()
        &&& self.spec_fields()[i].0 == name
        &&& forall|j: int| 0 <= j < i ==> self.spec_fields()[j].0 != name
    }

    /// Whether some field is named `name`.
    pub open spec fn has_field(&self, name: Seq<char>) -> bool {
        exists|i: int| 0 <= i < self.spec_fields().len() && self.spec_fields()[i].0 == name
    }

    /// A schema with the native handle `c_defn` and the given fields.
    pub fn _with_c_defn(c_defn: usize, fields: Vec<Field>) -> (r: Defn)
        ensures
            r.spec_c_defn() == c_defn,
            r.spec_fields() == fields@.map_values(|f: Field| (f.name@, f.field_type)),
    {
        Defn { c_defn, fields }
    }

    /// The native definition handle.
    pub fn c_defn(&self) -> (r: usize)
        ensures
            r == self.spec_c_defn(),
    {
        self.c_defn
    }

    /// The number of fields.
    pub fn field_count(&self) -> (r: usize)
        ensures
            r == self.spec_fields().len(),
    {
        self.fields.len()
    }

    /// The position of the first field named `name`, or `None` when no field
    /// has that name. Names are compared exactly.
    pub fn field_index(&self, name: &str) -> (r: Option<usize>)
        ensures
            r is None <==> !self.has_field(name@),
            r is Some ==> self.is_first_named(name@, r->Some_0 as int),
    {
        let key = String::from_str(name);
        let mut i: usize = 0;
        while i < self.fields.len()
            invariant
                i <= self.fields.len(),
                key@ == name@,
                self.spec_fields().len() == self.fields.len(),
                forall|j: int| 0 <= j < i ==> self.spec_fields()[j].0 != name@,
            decreases self.fields.len() - i,
        {
            if self.fields[i].name == key {
                proof {
                    assert(self.spec_fields()[i as int].0 == name@);
                }
                return Some(i);
            }
            i = i + 1;
        }
        None
    }

    /// What looking up the field named `name` gives: `FieldNotFound` when
    /// no field has that name; otherwise, for the first field of that name,
    /// its position and kind, or `UnsupportedType` with its type code.
    pub open spec fn field_post(&self, name: Seq<char>, r: Result<(usize, FieldKind), FieldError>) -> bool {
        &&& !self.has_field(name) <==> r == Err::<(usize, FieldKind), FieldError>(
            FieldError::FieldNotFound,
        )
        &&& self.has_field(name) ==> exists|i: int|
            #![trigger self.spec_fields()[i]]
            self.is_first_named(name, i) && match kind_of(self.spec_fields()[i].1) {
                Some(k) => r == Ok::<(usize, FieldKind), FieldError>((i as usize, k)),
                None => r == Err::<(usize, FieldKind), FieldError>(
                    FieldError::UnsupportedType(self.spec_fields()[i].1),
                ),
            }
    }

    /// Where and how to read the field named `name`: its position and the
    /// kind of value its declared type gives. An absent name and an
    /// unreadable type are told apart.
    pub fn field(&self, name: &str) -> (r: Result<(usize, FieldKind), FieldError>)
        ensures
            self.field_post(name@, r),
    {
        match self.field_index(name) {
            None => Err(FieldError::FieldNotFound),
            Some(i) => {
                let t = self.fields[i].field_type;
                proof {
                    assert(self.spec_fields()[i as int].1 == t);
                }
                if t == OFT_INTEGER {
                    Ok((i, FieldKind::Integer))
                } else if t == OFT_REAL {
                    Ok((i, FieldKind::Real))
                } else if t == OFT_STRING {
                    Ok((i, FieldKind::Text))
                } else {
                    Err(FieldError::UnsupportedType(t))
                }
            },
        }
    }
}

/// A feature read from a layer. It owns its native handle, borrows the
/// layer's schema, and holds the feature's geometry, whose handle is
/// fetched on first access and belongs to the feature.
#[derive(Debug)]
pub struct Feature<'a> {
    defn: &'a Defn,
    c_feature: usize,
    geometry: Geometry,
}

impl<'a> Feature<'a> {
    /// The native feature handle.
    pub closed spec fn spec_c_feature(&self) -> usize {
        self.c_feature
    }

    /// The schema that the feature's fields follow.
    pub closed spec fn spec_defn(&self) -> Defn {
        *self.defn
    }

    /// The feature's geometry.
    pub closed spec fn spec_geometry(&self) -> Geometry {
        self.geometry
    }

    /// Wraps a handle that a layer's cursor returned. Its geometry is not
    /// bound yet.
    pub fn _with_c_feature(defn: &'a Defn, c_feature: usize) -> (r: Feature<'a>)
        ensures
            r.spec_defn() == *defn,
            r.spec_c_feature() == c_feature,
            r.spec_geometry().view_state() == GeometryState::Unbound,
            r.spec_geometry().wf(),
    {
        Feature { defn, c_feature, geometry: Geometry::lazy_feature_geometry() }
    }

    /// The native feature handle. The feature owns it: dropping the feature
    /// must release it, exactly once.
    pub fn c_feature(&self) -> (r: usize)
        ensures
            r == self.spec_c_feature(),
    {
        self.c_feature
    }

    /// The schema that the feature's fields follow.
    pub fn defn(&self) -> (r: &Defn)
        ensures
            *r == self.spec_defn(),
    {
        self.defn
    }

    /// Where and how to read the field named `name`, by the schema.
    pub fn field(&self, name: &str) -> (r: Result<(usize, FieldKind), FieldError>)
        ensures
            self.spec_defn().field_post(name@, r),
    {
        self.defn.field(name)
    }

    /// Binds the feature's geometry on first access: `fetch` is called, and
    /// its handle bound, only while the geometry has none; later calls leave
    /// the bound handle in place.
    pub fn bind_geometry<F: FnOnce() -> usize>(&mut self, fetch: F)
        requires
            old(self).spec_geometry().handle() is None ==> call_requires(fetch, ()),
        ensures
            final(self).spec_c_feature() == old(self).spec_c_feature(),
            final(self).spec_defn() == old(self).spec_defn(),
            final(self).spec_geometry().handle() is Some,
            !old(self).spec_geometry().owned() ==> !final(self).spec_geometry().owned(),
            old(self).spec_geometry().handle() is Some ==> final(self).spec_geometry()
                == old(self).spec_geometry(),
            old(self).spec_geometry().handle() is None ==> exists|h: usize|
                call_ensures(fetch, (), h) && final(self).spec_geometry().view_state()
                    == GeometryState::Aliased(h),
    {
        if !self.geometry.has_gdal_ptr() {
            let h = fetch();
            self.geometry.set_c_geometry(h);
        }
    }

    /// The feature's geometry. It must not outlive the feature.
    pub fn geometry(&self) -> (r: &Geometry)
        ensures
            *r == self.spec_geometry(),
    {
        &self.geometry
    }
}

} // verus!
