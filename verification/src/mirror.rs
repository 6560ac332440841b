//! The two segmented mirrors.

use vstd::prelude::*;
use core::marker::PhantomData;
use crate::conic::Conic;
use crate::decimal::Decimal;
use crate::segment::{Geometry, Segment, SegmentTrait};

verus! {

/// Type representing the GMT primary mirror
#[derive(Default, Debug, Clone, Copy)]
pub struct M1;

/// Type representing the GMT secondary mirror
#[derive(Default, Debug, Clone, Copy)]
pub struct M2;

/// GMT optics interface: a mirror made of seven segments.
pub trait Gmt {
    /// The placement of segment `id` of the mirror, for `id` from 1 to 7.
    spec fn geometry(id: int) -> Geometry;

    /// Each of the seven placements obeys the data model's invariant.
    proof fn geometry_is_well_formed(id: int)
        requires
            1 <= id <= 7,
        ensures
            Self::geometry(id).id == id,
            Self::geometry(id).well_formed(),
    ;
}

impl Gmt for M1 {
    /// The vertex lies 3.9 m above the OSS origin; the outer segments lie
    /// 8.71 m off axis, inclined by 13.601685° and clocked by −60°·(id − 1).
    open spec fn geometry(id: int) -> Geometry {
        if id == 7 {
            Geometry {
                id,
                height: Decimal::of(390_000_000),
                beta: None,
                distance: None,
                clocking: None,
                conic: Conic::m1_preset(),
            }
        } else {
            Geometry {
                id,
                height: Decimal::of(390_000_000),
                beta: Some(Decimal::of(1_360_168_500)),
                distance: Some(Decimal::of(871_000_000)),
                clocking: Some(-60 * (id - 1)),
                conic: Conic::m1_preset(),
            }
        }
    }

    proof fn geometry_is_well_formed(id: int) {
        assert((-99_828_570 + 100_000_000) * 871_000_000 * 871_000_000 <= 3_600_000_000
            * 3_600_000_000 * 100_000_000int) by (nonlinear_arith);
    }
}

impl Gmt for M2 {
    /// The vertex lies 3.9 m + 20.26247614 m above the OSS origin; the outer
    /// segments lie 1.08774 m off axis, inclined by 14.777498° and clocked by
    /// 180° − 60°·(id − 1).
    open spec fn geometry(id: int) -> Geometry {
        if id == 7 {
            Geometry {
                id,
                height: Decimal::of(2_416_247_614),
                beta: None,
                distance: None,
                clocking: None,
                conic: Conic::m2_preset(),
            }
        } else {
            Geometry {
                id,
                height: Decimal::of(2_416_247_614),
                beta: Some(Decimal::of(1_477_749_800)),
                distance: Some(Decimal::of(108_774_000)),
                clocking: Some(180 - 60 * (id - 1)),
                conic: Conic::m2_preset(),
            }
        }
    }

    proof fn geometry_is_well_formed(id: int) {
        assert((-71_692_784 + 100_000_000) * 108_774_000 * 108_774_000 <= (-416_390_090) * (
        -416_390_090) * 100_000_000int) by (nonlinear_arith);
    }
}

/// GMT mirrors
pub struct Mirror<M: Gmt>(PhantomData<M>);

impl<M: Gmt> Mirror<M> where Segment<M>: SegmentTrait {
    /// Returns the seven segments of the mirror, in the order of their ids.
    pub fn segments() -> (segments: Vec<Segment<M>>)
        ensures
            segments@.len() == 7,
            forall|i: int|
                0 <= i < 7 ==> (#[trigger] segments@[i]).model() == <Segment<M> as SegmentTrait>::table(
                    i + 1,
                ),
    {
        let mut segments: Vec<Segment<M>> = Vec::new();
        let mut sid: i32 = 1;
        while sid <= 7
            invariant
                1 <= sid <= 8,
                segments@.len() == sid - 1,
                forall|i: int|
                    0 <= i < sid - 1 ==> (#[trigger] segments@[i]).model() == <Segment<
                        M,
                    > as SegmentTrait>::table(i + 1),
            decreases 8 - sid,
        {
            match <Segment<M> as SegmentTrait>::new(sid) {
                Ok(segment) => {
                    segments.push(segment);
                },
                Err(_) => {
                    assert(false);
                },
            }
            sid = sid + 1;
        }
        segments
    }
}

/// The three translations and the three Euler angles of a rigid body motion.
pub type Motion<T> = ([T; 3], [T; 3]);

impl<M: Gmt> Mirror<M> {
    /// The number at place `i` of the rigid body motions of a mirror: there
    /// are six to a segment, its translations along x, y and z, then its
    /// rotations about x, y and z; the segments follow each other in the order
    /// of their ids.
    pub open spec fn layout_at<T>(motions: Seq<Motion<T>>, i: int) -> T {
        if i % 6 < 3 {
            motions[i / 6].0@[i % 6]
        } else {
            motions[i / 6].1@[i % 6 - 3]
        }
    }

    /// The rigid body motions of a mirror as one sequence.
    pub open spec fn layout<T>(motions: Seq<Motion<T>>) -> Seq<T> {
        Seq::new(6 * motions.len(), |i: int| Self::layout_at(motions, i))
    }

    /// Seven segments make 42 numbers, of which the three translations and
    /// the three rotations of segment `id` stand at the places 6·(id − 1) to
    /// 6·(id − 1) + 5, in this order.
    pub proof fn layout_places<T>(motions: Seq<Motion<T>>, id: int, k: int)
        requires
            motions.len() == 7,
            1 <= id <= 7,
            0 <= k < 3,
        ensures
            Self::layout(motions).len() == 42,
            Self::layout(motions)[6 * (id - 1) + k] == motions[id - 1].0@[k],
            Self::layout(motions)[6 * (id - 1) + 3 + k] == motions[id - 1].1@[k],
    {
    }

    /// Lays the rigid body motions of the segments, given in the order of
    /// the segment ids, out as one sequence of six numbers to a segment.
    pub fn rigid_body_motions<T: Copy>(motions: &Vec<Motion<T>>) -> (rbm: Vec<T>)
        ensures
            rbm@ == Self::layout(motions@),
    {
        let mut rbm: Vec<T> = Vec::new();
        let mut s: usize = 0;
        while s < motions.len()
            invariant
                s <= motions@.len(),
                rbm@.len() == 6 * s,
                forall|i: int| 0 <= i < 6 * s ==> rbm@[i] == Self::layout_at(motions@, i),
            decreases motions@.len() - s,
        {
            let (translation, angles) = motions[s];
            rbm.push(translation[0]);
            rbm.push(translation[1]);
            rbm.push(translation[2]);
            rbm.push(angles[0]);
            rbm.push(angles[1]);
            rbm.push(angles[2]);
            s = s + 1;
        }
        assert(rbm@ =~= Self::layout(motions@));
        rbm
    }
}

} // verus!
