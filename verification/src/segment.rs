//! The segments of a mirror and their placement in the OSS.

use vstd::prelude::*;
use core::marker::PhantomData;
use crate::conic::Conic;
use crate::decimal::{Decimal, UNITS_PER_ONE};
use crate::mirror::{Gmt, M1, M2};
use crate::Error;

verus! {

/// What a segment is, mathematically: one row of a mirror's placement table.
pub struct Geometry {
    /// Segment # id; 7 is the center segment
    pub id: int,
    /// Height of the mirror vertex above the OSS origin \[m\]
    pub height: Decimal,
    /// Radial inclination angle \[degree\], absent for the center segment
    pub beta: Option<Decimal>,
    /// Distance to the optical axis \[m\], absent for the center segment
    pub distance: Option<Decimal>,
    /// Clocking angle about the optical axis \[degree\], absent for the center segment
    pub clocking: Option<int>,
    /// Conic surface of the mirror
    pub conic: Conic,
}

impl Geometry {
    /// The data model's invariant: the center segment carries neither
    /// inclination, distance nor clocking; an outer segment carries all
    /// three, is clocked by no more than a full turn, and lies where the sag
    /// of the conic is defined.
    pub open spec fn well_formed(self) -> bool {
        &&& 1 <= self.id <= 7
        &&& self.id == 7 ==> self.beta is None && self.distance is None && self.clocking is None
        &&& self.id < 7 ==> {
            &&& self.beta is Some
            &&& self.distance is Some
            &&& self.clocking is Some
            &&& -360 <= self.clocking->0 <= 360
            &&& self.conic.defined_at(self.distance->0)
        }
    }

    /// The origin of the segment frame in the OSS: on the optical axis for
    /// the center segment, else at the segment's distance from the axis,
    /// a quarter turn ahead of its clocking angle.
    pub open spec fn origin(self) -> Origin {
        if self.id < 7 {
            Origin::Radial {
                distance: self.distance->0,
                azimuth: (90 + self.clocking->0) as i32,
                height: self.height,
                conic: self.conic,
            }
        } else {
            Origin::Axial { height: self.height }
        }
    }
}

/// Where the origin of a segment frame lies in the OSS.
#[derive(Debug, Clone, Copy, PartialEq, Eq, Structural)]
pub enum Origin {
    /// On the optical axis, at (0, 0, `height`).
    Axial { height: Decimal },
    /// Off the optical axis, at
    /// (`distance`·cos `azimuth`, `distance`·sin `azimuth`, `height` + sag),
    /// where `azimuth` is in degrees and the sag is that of `conic` at
    /// `distance`.
    Radial { distance: Decimal, azimuth: i32, height: Decimal, conic: Conic },
}

/// GMT segmented mirror
#[derive(Debug)]
pub struct Segment<M: Gmt> {
    /// Segment # id
    id: i32,
    /// Mirror height
    height: Decimal,
    /// Radial inclination angle
    beta: Option<Decimal>,
    /// Distance to the origin
    distance: Option<Decimal>,
    /// Segment clocking angle \[degree\]
    clocking: Option<i32>,
    /// Conic surface
    conic: Conic,
    mirror: PhantomData<M>,
}

impl<M: Gmt> View for Segment<M> {
    type V = Geometry;

    closed spec fn view(&self) -> Geometry {
        Geometry {
            id: self.id as int,
            height: self.height,
            beta: self.beta,
            distance: self.distance,
            clocking: match self.clocking {
                Some(c) => Some(c as int),
                None => None,
            },
            conic: self.conic,
        }
    }
}

impl<M: Gmt> Clone for Segment<M> {
    fn clone(&self) -> (copy: Self)
        ensures
            copy == *self,
    {
        proof {
            use_type_invariant(self);
        }
        Segment {
            id: self.id,
            height: self.height,
            beta: self.beta,
            distance: self.distance,
            clocking: self.clocking,
            conic: self.conic,
            mirror: PhantomData,
        }
    }
}

impl<M: Gmt> Segment<M> {
    /// Every segment is one of the seven rows of its mirror's table.
    #[verifier::type_invariant]
    closed spec fn is_table_row(&self) -> bool {
        &&& 1 <= self.id <= 7
        &&& self@ == M::geometry(self.id as int)
    }

    /// The segment id
    pub fn id(&self) -> (id: i32)
        ensures
            1 <= id <= 7,
            id == self@.id,
            self@ == M::geometry(id as int),
    {
        proof {
            use_type_invariant(self);
        }
        self.id
    }

    /// Returns the segment origin coordinates in the OSS
    pub fn translation(&self) -> (t: Origin)
        ensures
            t == self@.origin(),
            t matches Origin::Radial { distance, conic, .. } ==> conic.defined_at(distance),
    {
        proof {
            use_type_invariant(self);
            M::geometry_is_well_formed(self.id as int);
        }
        if self.id < 7 {
            let o: i32 = self.clocking.unwrap();
            let d: Decimal = self.distance.unwrap();
            Origin::Radial { distance: d, azimuth: 90 + o, height: self.height, conic: self.conic }
        } else {
            Origin::Axial { height: self.height }
        }
    }
}

/// One of the three coordinate axes.
#[derive(Debug, Clone, Copy, PartialEq, Eq, Structural)]
pub enum Axis {
    /// The x axis, (1, 0, 0)
    I,
    /// The y axis, (0, 1, 0)
    J,
    /// The z axis, (0, 0, 1)
    K,
}

impl Axis {
    /// The coordinates of the unit vector along the axis.
    pub fn components(&self) -> (c: [i32; 3])
        ensures
            c@ == match *self {
                Axis::I => seq![1i32, 0i32, 0i32],
                Axis::J => seq![0i32, 1i32, 0i32],
                Axis::K => seq![0i32, 0i32, 1i32],
            },
    {
        match self {
            Axis::I => [1, 0, 0],
            Axis::J => [0, 1, 0],
            Axis::K => [0, 0, 1],
        }
    }
}

/// A rotation about a coordinate axis by an angle in degrees.
#[derive(Debug, Clone, Copy, PartialEq, Eq, Structural)]
pub struct Turn {
    /// Axis of the rotation
    pub axis: Axis,
    /// Angle of the rotation \[degree\]
    pub angle: Decimal,
}

impl Geometry {
    /// The orientation of the frame of an M1 segment in the OSS, as the
    /// product, left to right, of the inclination about x and the clocking
    /// about z.  The center segment is not rotated.
    pub open spec fn upright_rotation(self) -> Option<Seq<Turn>> {
        if self.id < 7 {
            Some(
                seq![
                    Turn { axis: Axis::K, angle: Decimal::of((self.clocking->0) * UNITS_PER_ONE) },
                    Turn { axis: Axis::I, angle: self.beta->0 },
                ],
            )
        } else {
            None
        }
    }

    /// The orientation of the frame of an M2 segment in the OSS: as for M1,
    /// with half a turn about y between the inclination and the clocking,
    /// since M2 faces M1.  The center segment is not rotated.
    pub open spec fn flipped_rotation(self) -> Option<Seq<Turn>> {
        if self.id < 7 {
            Some(
                seq![
                    Turn { axis: Axis::K, angle: Decimal::of((self.clocking->0) * UNITS_PER_ONE) },
                    Turn { axis: Axis::J, angle: Decimal::of(180 * UNITS_PER_ONE) },
                    Turn { axis: Axis::I, angle: self.beta->0 },
                ],
            )
        } else {
            None
        }
    }
}

/// Whether `r` holds the turns of `model`, or both hold none.
pub open spec fn same_turns(r: Option<Vec<Turn>>, model: Option<Seq<Turn>>) -> bool {
    match r {
        Some(turns) => model == Some(turns@),
        None => model is None,
    }
}

/// Segment specialization traits
pub trait SegmentTrait: Sized {
    /// The table row that the segment is.
    spec fn model(&self) -> Geometry;

    /// The mirror's placement table.
    spec fn table(id: int) -> Geometry;

    /// The mirror's rule for the orientation of a segment frame.
    spec fn orientation(g: Geometry) -> Option<Seq<Turn>>;

    /// Returns segment `o`, or `Error::SegmentId` unless `o` is from 1 to 7.
    fn new(o: i32) -> (r: Result<Self, Error>)
        ensures
            match r {
                Ok(segment) => 1 <= o <= 7 && segment.model() == Self::table(o as int),
                Err(e) => !(1 <= o <= 7) && e == Error::SegmentId(o),
            },
    ;

    /// Returns the turns whose product, left to right, rotates the segment
    /// frame into the OSS, or `None` where the frame is not rotated.
    fn rotation(&self) -> (r: Option<Vec<Turn>>)
        ensures
            same_turns(r, Self::orientation(self.model())),
            r is None <==> self.model().id == 7,
    ;
}

impl SegmentTrait for Segment<M1> {
    open spec fn model(&self) -> Geometry {
        self@
    }

    open spec fn table(id: int) -> Geometry {
        M1::geometry(id)
    }

    open spec fn orientation(g: Geometry) -> Option<Seq<Turn>> {
        g.upright_rotation()
    }

    /// Returns [`M1`] [`Segment`] `id`
    fn new(id: i32) -> (r: Result<Self, Error>) {
        if id == 7 {
            Ok(
                Segment {
                    id: 7,
                    height: Decimal::from_units(390_000_000),
                    beta: None,
                    distance: None,
                    clocking: None,
                    conic: Conic::m1(),
                    mirror: PhantomData,
                },
            )
        } else if 1 <= id && id <= 6 {
            Ok(
                Segment {
                    id,
                    height: Decimal::from_units(390_000_000),
                    beta: Some(Decimal::from_units(1_360_168_500)),
                    distance: Some(Decimal::from_units(871_000_000)),
                    clocking: Some(-60i32 * (id - 1)),
                    conic: Conic::m1(),
                    mirror: PhantomData,
                },
            )
        } else {
            Err(Error::SegmentId(id))
        }
    }

    /// Returns the turns that make up the 3D rotation of a [`M1`] [`Segment`] frame in the OSS
    fn rotation(&self) -> (r: Option<Vec<Turn>>) {
        proof {
            use_type_invariant(self);
            M1::geometry_is_well_formed(self.id as int);
        }
        if self.id < 7 {
            let o: i32 = self.clocking.unwrap();
            let turns = vec![
                Turn { axis: Axis::K, angle: Decimal::from_whole(o) },
                Turn { axis: Axis::I, angle: self.beta.unwrap() },
            ];
            assert(turns@ =~= self@.upright_rotation()->0);
            Some(turns)
        } else {
            None
        }
    }
}

impl SegmentTrait for Segment<M2> {
    open spec fn model(&self) -> Geometry {
        self@
    }

    open spec fn table(id: int) -> Geometry {
        M2::geometry(id)
    }

    open spec fn orientation(g: Geometry) -> Option<Seq<Turn>> {
        g.flipped_rotation()
    }

    /// Returns [`M2`] [`Segment`] `id`
    fn new(id: i32) -> (r: Result<Self, Error>) {
        if id == 7 {
            Ok(
                Segment {
                    id: 7,
                    height: Decimal::from_units(2_416_247_614),
                    beta: None,
                    distance: None,
                    clocking: None,
                    conic: Conic::m2(),
                    mirror: PhantomData,
                },
            )
        } else if 1 <= id && id <= 6 {
            Ok(
                Segment {
                    id,
                    height: Decimal::from_units(2_416_247_614),
                    beta: Some(Decimal::from_units(1_477_749_800)),
                    distance: Some(Decimal::from_units(108_774_000)),
                    clocking: Some(180i32 - 60i32 * (id - 1)),
                    conic: Conic::m2(),
                    mirror: PhantomData,
                },
            )
        } else {
            Err(Error::SegmentId(id))
        }
    }

    /// Returns the turns that make up the 3D rotation of a [`M2`] [`Segment`] frame in the OSS
    fn rotation(&self) -> (r: Option<Vec<Turn>>) {
        proof {
            use_type_invariant(self);
            M2::geometry_is_well_formed(self.id as int);
        }
        if self.id < 7 {
            let o: i32 = self.clocking.unwrap();
            let turns = vec![
                Turn { axis: Axis::K, angle: Decimal::from_whole(o) },
                Turn { axis: Axis::J, angle: Decimal::from_whole(180) },
                Turn { axis: Axis::I, angle: self.beta.unwrap() },
            ];
            assert(turns@ =~= self@.flipped_rotation()->0);
            Some(turns)
        } else {
            None
        }
    }
}

} // verus!
