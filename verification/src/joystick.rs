use vstd::prelude::*;

verus! {

/// The eight points of the compass that the joystick can report.
#[derive(Clone, Copy, Debug, PartialEq, Eq, Structural)]
pub enum Direction {
    North,
    NorthEast,
    East,
    SouthEast,
    South,
    SouthWest,
    West,
    NorthWest,
}

impl Direction {
    /// The direction half a turn away from this one.
    pub open spec fn reversed(self) -> Direction {
        match self {
            Direction::North => Direction::South,
            Direction::NorthEast => Direction::SouthWest,
            Direction::East => Direction::West,
            Direction::SouthEast => Direction::NorthWest,
            Direction::South => Direction::North,
            Direction::SouthWest => Direction::NorthEast,
            Direction::West => Direction::East,
            Direction::NorthWest => Direction::SouthEast,
        }
    }

    /// North, East, South and West: the directions a snake can travel in.
    pub open spec fn is_cardinal(self) -> bool {
        self == Direction::North || self == Direction::East || self == Direction::South
            || self == Direction::West
    }

    /// Whether `other` points exactly the opposite way.
    pub fn opposite(&self, other: &Direction) -> (r: bool)
        ensures
            r == (*other == self.reversed()),
            r == (*self == other.reversed()),
    {
        match self {
            Direction::North => *other == Direction::South,
            Direction::South => *other == Direction::North,
            Direction::East => *other == Direction::West,
            Direction::West => *other == Direction::East,
            Direction::NorthEast => *other == Direction::SouthWest,
            Direction::SouthWest => *other == Direction::NorthEast,
            Direction::SouthEast => *other == Direction::NorthWest,
            Direction::NorthWest => *other == Direction::SouthEast,
        }
    }
}

/// How many readings `direction` averages.
pub const DIRECTION_SAMPLES: usize = 16;

/// How many readings of both axes `calibrate` takes, after a first reading
/// of the x axis.
pub const CALIBRATION_SAMPLES: usize = 64;

/// The readings `start <= v < end` that count as no deflection of an axis.
#[derive(Clone, Copy, Debug, PartialEq, Eq, Structural)]
pub struct DeadZone {
    pub start: u16,
    pub end: u16,
}

/// Where a reading of one axis lies with respect to the dead zone.
pub enum Deflection {
    /// Under `start`: deflected.
    Below,
    /// Inside the zone.
    Centred,
    /// At `end` or over it: deflected.
    Above,
}

impl DeadZone {
    /// The zone does not end before it starts.
    pub open spec fn wf(self) -> bool {
        self.start <= self.end
    }

    /// Whether `v` lies inside the zone.
    pub open spec fn holds(self, v: u16) -> bool {
        self.start <= v < self.end
    }

    /// Where `v` lies with respect to the zone.
    pub open spec fn deflection(self, v: u16) -> Deflection {
        if v < self.start {
            Deflection::Below
        } else if v < self.end {
            Deflection::Centred
        } else {
            Deflection::Above
        }
    }

    /// The direction of an averaged reading `(x, y)`. One deflected axis
    /// gives a cardinal direction, two give a diagonal, and none gives no
    /// direction. Small `y` is North, small `x` is West.
    pub open spec fn compass(self, x: u16, y: u16) -> Option<Direction> {
        match (self.deflection(x), self.deflection(y)) {
            (Deflection::Centred, Deflection::Above) => Some(Direction::South),
            (Deflection::Centred, Deflection::Below) => Some(Direction::North),
            (Deflection::Above, Deflection::Centred) => Some(Direction::East),
            (Deflection::Below, Deflection::Centred) => Some(Direction::West),
            (Deflection::Below, Deflection::Below) => Some(Direction::NorthWest),
            (Deflection::Above, Deflection::Below) => Some(Direction::NorthEast),
            (Deflection::Above, Deflection::Above) => Some(Direction::SouthEast),
            (Deflection::Below, Deflection::Above) => Some(Direction::SouthWest),
            (Deflection::Centred, Deflection::Centred) => None,
        }
    }

    /// The zone around readings that ranged from `lowest` to `highest`: a
    /// tenth is taken off the lowest and added to the highest, fractions are
    /// dropped, and the end stops at the largest reading there is.
    pub open spec fn around(lowest: u16, highest: u16) -> DeadZone {
        DeadZone {
            start: (lowest * 9 / 10) as u16,
            end: if highest * 11 / 10 > u16::MAX {
                u16::MAX
            } else {
                (highest * 11 / 10) as u16
            },
        }
    }

    /// Whether `v` lies inside the zone.
    pub fn contains(&self, v: u16) -> (inside: bool)
        ensures
            inside == self.holds(v),
    {
        self.start <= v && v < self.end
    }
}

/// The sum of the x readings.
pub open spec fn total_x(samples: Seq<(u16, u16)>) -> int
    decreases samples.len(),
{
    if samples.len() == 0 {
        0
    } else {
        total_x(samples.drop_last()) + samples.last().0
    }
}

/// The sum of the y readings.
pub open spec fn total_y(samples: Seq<(u16, u16)>) -> int
    decreases samples.len(),
{
    if samples.len() == 0 {
        0
    } else {
        total_y(samples.drop_last()) + samples.last().1
    }
}

/// The mean reading of each axis, fractions dropped.
pub open spec fn mean(samples: Seq<(u16, u16)>) -> (int, int) {
    (total_x(samples) / (samples.len() as int), total_y(samples) / (samples.len() as int))
}

/// The smallest among `first` and the readings of both axes.
pub open spec fn lowest(first: u16, samples: Seq<(u16, u16)>) -> u16
    decreases samples.len(),
{
    if samples.len() == 0 {
        first
    } else {
        let rest = lowest(first, samples.drop_last());
        let (x, y) = samples.last();
        if x <= y && x <= rest {
            x
        } else if y <= rest {
            y
        } else {
            rest
        }
    }
}

/// The largest among `first` and the readings of both axes.
pub open spec fn highest(first: u16, samples: Seq<(u16, u16)>) -> u16
    decreases samples.len(),
{
    if samples.len() == 0 {
        first
    } else {
        let rest = highest(first, samples.drop_last());
        let (x, y) = samples.last();
        if x >= y && x >= rest {
            x
        } else if y >= rest {
            y
        } else {
            rest
        }
    }
}

/// The part of the joystick that decides: its dead zone, found once from
/// readings taken at rest, and the direction that later readings mean.
pub struct Joystick {
    dead_zone: DeadZone,
}

impl View for Joystick {
    type V = DeadZone;

    closed spec fn view(&self) -> DeadZone {
        self.dead_zone
    }
}

impl Joystick {
    /// The dead zone is a valid one.
    pub open spec fn wf(&self) -> bool {
        self@.wf()
    }

    /// A joystick calibrated from what its pins read at rest: one reading of
    /// the x axis and then 64 readings of both axes.
    pub fn from_pins(first_x: u16, samples: &[(u16, u16); 64]) -> (joystick: Joystick)
        ensures
            joystick.wf(),
            joystick@ == DeadZone::around(lowest(first_x, samples@), highest(first_x, samples@)),
    {
        let mut joystick = Joystick { dead_zone: DeadZone { start: 0, end: 0 } };
        // Find the deadzone of the joystick
        joystick.calibrate(first_x, samples);
        joystick
    }

    /// The dead zone in use.
    pub fn dead_zone(&self) -> (zone: DeadZone)
        ensures
            zone == self@,
    {
        self.dead_zone
    }

    /// The direction that 16 readings of both axes mean, taken together.
    /// Returns `None` when the joystick is centred and not moving.
    pub fn direction(&self, samples: &[(u16, u16); 16]) -> (direction: Option<Direction>)
        requires
            self.wf(),
        ensures
            0 <= mean(samples@).0 <= u16::MAX,
            0 <= mean(samples@).1 <= u16::MAX,
            direction == self@.compass(mean(samples@).0 as u16, mean(samples@).1 as u16),
    {
        // Average the x / y over a sample set
        let mut x: u32 = 0;
        let mut y: u32 = 0;
        let mut i: usize = 0;
        while i < DIRECTION_SAMPLES
            invariant
                i <= DIRECTION_SAMPLES,
                x == total_x(samples@.take(i as int)),
                y == total_y(samples@.take(i as int)),
                x <= i * u16::MAX,
                y <= i * u16::MAX,
            decreases DIRECTION_SAMPLES - i,
        {
            let x_y = samples[i];
            assert(samples@.take(i + 1).drop_last() =~= samples@.take(i as int));
            x += x_y.0 as u32;
            y += x_y.1 as u32;
            i += 1;
        }
        assert(samples@.take(16) =~= samples@);
        assert(mean(samples@) == (x as int / 16, y as int / 16));
        x /= DIRECTION_SAMPLES as u32;
        y /= DIRECTION_SAMPLES as u32;
        let x: u16 = x as u16;
        let y: u16 = y as u16;

        let zone = &self.dead_zone;
        if zone.contains(x) && y >= zone.end {
            Some(Direction::South)
        } else if zone.contains(x) && y < zone.start {
            Some(Direction::North)
        } else if zone.contains(y) && x >= zone.end {
            Some(Direction::East)
        } else if zone.contains(y) && x < zone.start {
            Some(Direction::West)
        } else if x < zone.start && y < zone.start {
            Some(Direction::NorthWest)
        } else if x >= zone.end && y < zone.start {
            Some(Direction::NorthEast)
        } else if x >= zone.end && y >= zone.end {
            Some(Direction::SouthEast)
        } else if x < zone.start && y >= zone.end {
            Some(Direction::SouthWest)
        } else {
            None
        }
    }

    /// Sets the dead zone from readings taken while the joystick is at rest:
    /// from a tenth under the lowest reading to a tenth over the highest.
    pub fn calibrate(&mut self, first_x: u16, samples: &[(u16, u16); 64])
        ensures
            final(self).wf(),
            final(self)@ == DeadZone::around(lowest(first_x, samples@), highest(first_x, samples@)),
    {
        let mut max = first_x;
        let mut min = first_x;
        let mut i: usize = 0;
        while i < CALIBRATION_SAMPLES
            invariant
                i <= CALIBRATION_SAMPLES,
                min == lowest(first_x, samples@.take(i as int)),
                max == highest(first_x, samples@.take(i as int)),
                min <= max,
            decreases CALIBRATION_SAMPLES - i,
        {
            let x_y = samples[i];
            assert(samples@.take(i + 1).drop_last() =~= samples@.take(i as int));
            if x_y.0 > max {
                max = x_y.0;
            }
            if x_y.1 > max {
                max = x_y.1;
            }
            if x_y.0 < min {
                min = x_y.0;
            }
            if x_y.1 < min {
                min = x_y.1;
            }
            i += 1;
        }
        assert(samples@.take(64) =~= samples@);

        // Increase the dead zone by about 10% on either side
        let start: u16 = (min as u32 * 9 / 10) as u16;
        let raised: u32 = max as u32 * 11 / 10;
        let end: u16 = if raised > u16::MAX as u32 {
            u16::MAX
        } else {
            raised as u16
        };
        self.dead_zone = DeadZone { start, end };
    }
}

/// A reading means no direction exactly when both axes lie inside the dead
/// zone, a cardinal direction exactly when one of them does, and a diagonal
/// exactly when neither does. A reading at the end of the zone lies outside
/// it.
pub proof fn lemma_compass_classes(zone: DeadZone, x: u16, y: u16)
    ensures
        zone.compass(x, y).is_none() <==> zone.holds(x) && zone.holds(y),
        (zone.compass(x, y) matches Some(d) && d.is_cardinal()) <==> (zone.holds(x) != zone.holds(
            y,
        )),
        (zone.compass(x, y) matches Some(d) && !d.is_cardinal()) <==> !zone.holds(x)
            && !zone.holds(y),
        zone.wf() && x >= zone.end ==> zone.deflection(x) == Deflection::Above,
{
}

/// Whether `v` is among `first` and the readings of both axes.
pub open spec fn was_read(v: u16, first: u16, samples: Seq<(u16, u16)>) -> bool {
    v == first || exists|i: int|
        0 <= i < samples.len() && ((#[trigger] samples[i]).0 == v || samples[i].1 == v)
}

/// `lowest` and `highest` are readings, and no reading lies under the one
/// or over the other.
pub proof fn lemma_extremes(first: u16, samples: Seq<(u16, u16)>)
    ensures
        lowest(first, samples) <= first <= highest(first, samples),
        forall|i: int|
            0 <= i < samples.len() ==> lowest(first, samples) <= (#[trigger] samples[i]).0
                <= highest(first, samples) && lowest(first, samples) <= samples[i].1 <= highest(
                first,
                samples,
            ),
        was_read(lowest(first, samples), first, samples),
        was_read(highest(first, samples), first, samples),
    decreases samples.len(),
{
    if samples.len() > 0 {
        let rest = samples.drop_last();
        let last = samples.len() - 1;
        lemma_extremes(first, rest);
        assert forall|i: int| 0 <= i < samples.len() implies lowest(first, samples) <= (
        #[trigger] samples[i]).0 <= highest(first, samples) && lowest(first, samples)
            <= samples[i].1 <= highest(first, samples) by {
            if i < last {
                assert(rest[i] == samples[i]);
            }
        }
    }
}

/// Calibration on readings that range from `min` to `max`, both of them
/// read, gives the dead zone from nine tenths of `min` to eleven tenths of
/// `max`, fractions dropped, the end no larger than a reading can be.
pub proof fn lemma_zone_of_confined_readings(
    first: u16,
    samples: Seq<(u16, u16)>,
    min: u16,
    max: u16,
)
    requires
        min <= first <= max,
        forall|i: int|
            0 <= i < samples.len() ==> min <= (#[trigger] samples[i]).0 <= max && min
                <= samples[i].1 <= max,
        was_read(min, first, samples),
        was_read(max, first, samples),
    ensures
        lowest(first, samples) == min,
        highest(first, samples) == max,
        DeadZone::around(lowest(first, samples), highest(first, samples)) == DeadZone::around(
            min,
            max,
        ),
        DeadZone::around(min, max).wf(),
        10 * DeadZone::around(min, max).start <= 9 * min < 10 * (DeadZone::around(min, max).start
            + 1),
        max * 11 / 10 <= u16::MAX ==> 10 * DeadZone::around(min, max).end <= 11 * max < 10 * (
        DeadZone::around(min, max).end + 1),
        max * 11 / 10 > u16::MAX ==> DeadZone::around(min, max).end == u16::MAX,
        DeadZone::around(min, max).start <= min,
        max <= DeadZone::around(min, max).end,
{
    lemma_extremes(first, samples);
}

/// Readings that all equal `(mid, mid)`, with `mid` inside the dead zone,
/// average to `(mid, mid)` and mean no direction.
pub proof fn lemma_centred_readings_mean_none(zone: DeadZone, samples: Seq<(u16, u16)>, mid: u16)
    requires
        zone.holds(mid),
        samples.len() > 0,
        forall|i: int| 0 <= i < samples.len() ==> #[trigger] samples[i] == (mid, mid),
    ensures
        mean(samples) == (mid as int, mid as int),
        zone.compass(mid, mid) == None::<Direction>,
        zone.compass(mean(samples).0 as u16, mean(samples).1 as u16) == None::<Direction>,
{
    lemma_constant_totals(samples, mid);
    let n = samples.len() as int;
    assert((n * mid) / n == mid) by (nonlinear_arith)
        requires
            n > 0,
    ;
}

proof fn lemma_constant_totals(samples: Seq<(u16, u16)>, mid: u16)
    requires
        forall|i: int| 0 <= i < samples.len() ==> #[trigger] samples[i] == (mid, mid),
    ensures
        total_x(samples) == samples.len() * mid,
        total_y(samples) == samples.len() * mid,
    decreases samples.len(),
{
    if samples.len() > 0 {
        let rest = samples.drop_last();
        lemma_constant_totals(rest, mid);
        assert(rest.len() * mid + mid == samples.len() * mid) by (nonlinear_arith)
            requires
                rest.len() + 1 == samples.len(),
        ;
    }
}

} // verus!
