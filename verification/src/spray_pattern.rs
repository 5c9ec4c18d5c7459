//! The points that the pattern editor draws.

use vstd::prelude::*;

verus! {

/// One drawn point: its position, its colour and its size.
#[derive(Debug)]
pub struct DrawPoints {
    pub x: i32,
    pub y: i32,
    pub color: String,
    pub size: i32,
}

/// What a `DrawPoints` holds, as mathematical values.
pub struct DrawPointsView {
    pub x: i32,
    pub y: i32,
    pub color: Seq<char>,
    pub size: i32,
}

impl View for DrawPoints {
    type V = DrawPointsView;

    open spec fn view(&self) -> DrawPointsView {
        DrawPointsView { x: self.x, y: self.y, color: self.color@, size: self.size }
    }
}

impl Clone for DrawPoints {
    fn clone(&self) -> (copy: Self)
        ensures
            copy@ == self@,
    {
        DrawPoints { x: self.x, y: self.y, color: self.color.clone(), size: self.size }
    }
}

/// The message that carries one drawn point.
#[derive(Debug)]
pub struct Payload {
    pub payload: DrawPoints,
}

impl Clone for Payload {
    fn clone(&self) -> (copy: Self)
        ensures
            copy.payload@ == self.payload@,
    {
        Payload { payload: self.payload.clone() }
    }
}

/// The views of `points`, in their order.
pub open spec fn views(points: Seq<DrawPoints>) -> Seq<DrawPointsView> {
    points.map_values(|p: DrawPoints| p@)
}

/// The drawn points of one pattern, in the order in which they were added.
pub struct SprayPattern {
    spray_points: Vec<DrawPoints>,
}

impl View for SprayPattern {
    type V = Seq<DrawPointsView>;

    closed spec fn view(&self) -> Seq<DrawPointsView> {
        views(self.spray_points@)
    }
}

impl SprayPattern {
    /// A pattern without points.
    pub fn new() -> (pattern: SprayPattern)
        ensures
            pattern@ == Seq::<DrawPointsView>::empty(),
    {
        SprayPattern { spray_points: Vec::new() }
    }

    /// Appends `point`.
    pub fn add_point(&mut self, point: DrawPoints)
        ensures
            final(self)@ == old(self)@.push(point@),
    {
        self.spray_points.push(point);
        assert(views(self.spray_points@) =~= views(old(self).spray_points@).push(point@));
    }

    /// A copy of the points, in their order.
    pub fn get_points(&self) -> (points: Vec<DrawPoints>)
        ensures
            views(points@) == self@,
    {
        let mut points: Vec<DrawPoints> = Vec::new();
        let mut i: usize = 0;
        while i < self.spray_points.len()
            invariant
                i <= self.spray_points.len(),
                views(points@) == views(self.spray_points@.take(i as int)),
            decreases self.spray_points.len() - i,
        {
            let ghost copied = points@;
            let copy = self.spray_points[i].clone();
            points.push(copy);
            proof {
                let before = self.spray_points@.take(i as int);
                let after = self.spray_points@.take(i + 1);
                assert(after =~= before.push(self.spray_points@[i as int]));
                assert(views(after) =~= views(before).push(self.spray_points@[i as int]@));
                assert(views(points@) =~= views(copied).push(copy@));
            }
            i = i + 1;
        }
        assert(self.spray_points@.take(i as int) =~= self.spray_points@);
        points
    }
}

} // verus!
