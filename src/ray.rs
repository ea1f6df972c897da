use vstd::prelude::*;

use crate::error::{error_or, Error, ErrorCode, Stage};

verus! {

/// Identifier that means "no geometry, primitive or instance".
pub const INVALID_GEOMETRY_ID: u32 = 0xffff_ffff;

/// A ray. Float fields hold the bit pattern of an `f32`.
#[derive(Clone, Copy, Debug, PartialEq, Eq, Structural)]
pub struct Ray {
    pub org_x: u32,
    pub org_y: u32,
    pub org_z: u32,
    pub tnear: u32,
    pub dir_x: u32,
    pub dir_y: u32,
    pub dir_z: u32,
    pub time: u32,
    pub tfar: u32,
    pub mask: u32,
    pub id: u32,
    pub flags: u32,
}

/// A hit record. Float fields hold the bit pattern of an `f32`.
#[derive(Clone, Copy, Debug, PartialEq, Eq, Structural)]
pub struct Hit {
    pub ng_x: u32,
    pub ng_y: u32,
    pub ng_z: u32,
    pub u: u32,
    pub v: u32,
    pub prim_id: u32,
    pub geom_id: u32,
    pub inst_id: u32,
}

/// A ray together with its hit record.
#[derive(Clone, Copy, Debug, PartialEq, Eq, Structural)]
pub struct RayHit {
    pub ray: Ray,
    pub hit: Hit,
}

/// The part of a query's context that a shape may read: the active instance id.
#[derive(Clone, Copy, Debug, PartialEq, Eq, Structural)]
pub struct QueryContext {
    pub inst_id: u32,
}

/// An axis-aligned box. Fields hold the bit pattern of an `f32`.
#[derive(Clone, Copy, Debug, PartialEq, Eq, Structural)]
pub struct Bounds {
    pub lower_x: u32,
    pub lower_y: u32,
    pub lower_z: u32,
    pub upper_x: u32,
    pub upper_y: u32,
    pub upper_z: u32,
}

impl Hit {
    /// A hit is found iff its geometry id is not the sentinel.
    pub open spec fn spec_is_found(self) -> bool {
        self.geom_id != INVALID_GEOMETRY_ID
    }

    /// The record a query starts from: every id is the sentinel, the rest zero.
    pub open spec fn spec_empty() -> Hit {
        Hit {
            ng_x: 0,
            ng_y: 0,
            ng_z: 0,
            u: 0,
            v: 0,
            prim_id: 0,
            geom_id: INVALID_GEOMETRY_ID,
            inst_id: INVALID_GEOMETRY_ID,
        }
    }

    pub fn empty() -> (r: Hit)
        ensures
            r == Hit::spec_empty(),
    {
        Hit {
            ng_x: 0,
            ng_y: 0,
            ng_z: 0,
            u: 0,
            v: 0,
            prim_id: 0,
            geom_id: INVALID_GEOMETRY_ID,
            inst_id: INVALID_GEOMETRY_ID,
        }
    }

    pub fn is_found(&self) -> (r: bool)
        ensures
            r == self.spec_is_found(),
    {
        self.geom_id != INVALID_GEOMETRY_ID
    }
}

impl RayHit {
    /// The record handed to a single-ray query: the ray as given, no hit yet.
    pub fn for_query(ray: Ray) -> (r: RayHit)
        ensures
            r.ray == ray,
            r.hit == Hit::spec_empty(),
            !r.hit.spec_is_found(),
    {
        RayHit { ray, hit: Hit::empty() }
    }

    /// What a single-ray query returns once traversal has filled `self`:
    /// the record if a geometry id was set, `None` otherwise.
    pub fn into_result(self) -> (r: Option<RayHit>)
        ensures
            self.hit.spec_is_found() ==> r == Some(self),
            !self.hit.spec_is_found() ==> r.is_none(),
    {
        if self.hit.is_found() {
            Some(self)
        } else {
            None
        }
    }
}

/// The outcome of a single-ray query, from the record that traversal left
/// and what the error slot reported after it: the error if one was reported,
/// else the record if it holds a hit, else `None`.
pub fn query_result(ray_hit: RayHit, error: Option<ErrorCode>) -> (r: Result<Option<RayHit>, Error>)
    ensures
        error.is_some() ==> r == Err::<Option<RayHit>, Error>(
            Error { stage: Stage::Intersect, code: error },
        ),
        error.is_none() && ray_hit.hit.spec_is_found() ==> r == Ok::<Option<RayHit>, Error>(
            Some(ray_hit),
        ),
        error.is_none() && !ray_hit.hit.spec_is_found() ==> r == Ok::<Option<RayHit>, Error>(
            None,
        ),
{
    match error_or(error, (), Stage::Intersect) {
        Err(e) => Err(e),
        Ok(()) => Ok(ray_hit.into_result()),
    }
}

} // verus!
