//! Scene objects and the records uploaded to the renderer's object store.
//!
//! The renderer consumes, per object, its shape identifier and the inverse
//! of its pose.  [`upload_records`] derives those records; inversion is the
//! certified exact inverse, so every record provably undoes its object's
//! pose.

use vstd::prelude::*;

use crate::inverse::{inverse, inverse_works};
use crate::matrix::{m_equiv, m_ident, m_mul, m_wf, Matrix5};

verus! {

/// The shapes the renderer can draw.
#[derive(Clone, Copy, Debug)]
pub enum ObjectType {
    Cube,
    Sphere,
    CubeFrame,
}

/// The numeric shape identifier of each drawable shape.
pub open spec fn shape_id_spec(t: ObjectType) -> u32 {
    match t {
        ObjectType::Cube => 0,
        ObjectType::Sphere => 1,
        ObjectType::CubeFrame => 2,
    }
}

impl ObjectType {
    /// The numeric shape identifier uploaded with each object.
    pub fn shape_id(&self) -> (r: u32)
        ensures
            r == shape_id_spec(*self),
    {
        match self {
            ObjectType::Cube => 0,
            ObjectType::Sphere => 1,
            ObjectType::CubeFrame => 2,
        }
    }
}

/// A scene object: its shape and its pose matrix.
pub struct Object {
    pub obj_type: ObjectType,
    pub transform: Matrix5,
}

/// One record of the object upload buffer: the shape identifier and the
/// inverse of the object's pose.
pub struct UploadRecord {
    pub shape: u32,
    pub inverse: Matrix5,
}

/// Derives the upload records of a scene: for each object, its shape
/// identifier and the certified inverse of its pose.  `None` exactly when
/// some pose cannot be inverted - it is singular (a fatal scene error, as an
/// uninvertible pose cannot be rendered) or an inversion intermediate does
/// not fit in `i128` ([`inverse_works`]).
pub fn upload_records(objects: &Vec<Object>) -> (r: Option<Vec<UploadRecord>>)
    requires
        forall|i: int| 0 <= i < objects@.len() ==> m_wf(#[trigger] objects@[i].transform@),
    ensures
        r is Some <==> forall|i: int|
            0 <= i < objects@.len() ==> inverse_works(#[trigger] objects@[i].transform@),
        r is Some ==> {
            let rs = r->Some_0@;
            &&& rs.len() == objects@.len()
            &&& forall|i: int|
                0 <= i < rs.len() ==> {
                    &&& (#[trigger] rs[i]).shape == shape_id_spec(objects@[i].obj_type)
                    &&& m_wf(rs[i].inverse@)
                    &&& m_equiv(m_mul(objects@[i].transform@, rs[i].inverse@), m_ident())
                    &&& m_equiv(m_mul(rs[i].inverse@, objects@[i].transform@), m_ident())
                }
        },
{
    let mut out: Vec<UploadRecord> = Vec::new();
    let mut i: usize = 0;
    while i < objects.len()
        invariant
            i <= objects@.len(),
            forall|t: int| 0 <= t < objects@.len() ==> m_wf(#[trigger] objects@[t].transform@),
            forall|t: int| 0 <= t < i ==> inverse_works(#[trigger] objects@[t].transform@),
            out@.len() == i,
            forall|t: int|
                0 <= t < i ==> {
                    &&& (#[trigger] out@[t]).shape == shape_id_spec(objects@[t].obj_type)
                    &&& m_wf(out@[t].inverse@)
                    &&& m_equiv(m_mul(objects@[t].transform@, out@[t].inverse@), m_ident())
                    &&& m_equiv(m_mul(out@[t].inverse@, objects@[t].transform@), m_ident())
                },
        decreases objects@.len() - i,
    {
        let obj = &objects[i];
        let inv = match inverse(&obj.transform) {
            Some(m) => m,
            None => {
                proof {
                    assert(!inverse_works(objects@[i as int].transform@));
                }
                return None;
            },
        };
        let shape = obj.obj_type.shape_id();
        out.push(UploadRecord { shape, inverse: inv });
        i = i + 1;
    }
    Some(out)
}

} // verus!
