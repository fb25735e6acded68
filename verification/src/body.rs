use crate::game::Point;
use heapless::consts::U64;
use vstd::prelude::*;

verus! {

/// The cells of a snake, held in a `heapless::Vec` with room for 64 points.
///
/// Verus cannot look inside the vector, so the struct is opaque to it and
/// everything known about a body is what the functions below state in terms
/// of [`body_cells`].
#[verifier::external_body]
pub struct Body {
    cells: heapless::Vec<Point, U64>,
}

/// The points that a body holds, in the vector's own order.
pub uninterp spec fn body_cells(body: Body) -> Seq<Point>;

impl Body {
    /// `heapless::Vec::new`: a vector that holds nothing.
    #[verifier::external_body]
    pub(crate) fn new() -> (body: Body)
        ensures
            body_cells(body) == Seq::<Point>::empty(),
    {
        Body { cells: heapless::Vec::new() }
    }

    /// `heapless::Vec::capacity`: the length the vector was declared with,
    /// which for `U64` is 64.
    #[verifier::external_body]
    pub(crate) fn capacity(&self) -> (n: usize)
        ensures
            n == 64,
    {
        self.cells.capacity()
    }

    /// `heapless::Vec::push`: while fewer than 64 points are held the point
    /// is appended at the back; otherwise nothing changes and the point is
    /// handed back as the error.
    #[verifier::external_body]
    pub(crate) fn push(&mut self, point: Point) -> (r: Result<(), Point>)
        ensures
            match r {
                Ok(_) => body_cells(*old(self)).len() < 64 && body_cells(*final(self))
                    == body_cells(*old(self)).push(point),
                Err(back) => body_cells(*old(self)).len() >= 64 && back == point && body_cells(
                    *final(self),
                ) == body_cells(*old(self)),
            },
    {
        self.cells.push(point)
    }

    /// `heapless::Vec::pop`: removes the point at the back and returns it,
    /// or returns `None` and changes nothing when no point is held.
    #[verifier::external_body]
    pub(crate) fn pop(&mut self) -> (r: Option<Point>)
        ensures
            match r {
                Some(point) => body_cells(*old(self)).len() > 0 && point == body_cells(
                    *old(self),
                ).last() && body_cells(*final(self)) == body_cells(*old(self)).drop_last(),
                None => body_cells(*old(self)).len() == 0 && body_cells(*final(self))
                    == body_cells(*old(self)),
            },
    {
        self.cells.pop()
    }

    /// The slice method `reverse`, reached through the vector's `DerefMut`:
    /// the same points in the opposite order.
    #[verifier::external_body]
    pub(crate) fn reverse(&mut self)
        ensures
            body_cells(*final(self)) == body_cells(*old(self)).reverse(),
    {
        self.cells.reverse()
    }

    /// The vector's `Deref`: the points held, as a slice.
    #[verifier::external_body]
    pub(crate) fn as_slice(&self) -> (cells: &[Point])
        ensures
            cells@ == body_cells(*self),
    {
        &self.cells
    }
}

} // verus!
