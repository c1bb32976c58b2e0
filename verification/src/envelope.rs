//! Envelopes: the boundaries beyond which a hazard exists.

use vstd::prelude::*;

verus! {

/// A breakpoint of an envelope: an altitude above ground and the rate of descent at which
/// the hazard begins at that altitude.
pub type Breakpoint = (i32, i32);

/// Breakpoints make an envelope if they are at least two and their altitudes increase
/// strictly.
pub open spec fn valid_breakpoints(points: Seq<Breakpoint>) -> bool {
    &&& points.len() >= 2
    &&& forall|i: int, j: int| 0 <= i < j < points.len() ==> points[i].0 < points[j].0
}

/// Whether the rate `y` at the altitude `x` is at or above the straight line through the
/// breakpoints `a` and `b`, where `a` is the lower one.
pub open spec fn at_or_above_line(a: Breakpoint, b: Breakpoint, x: int, y: int) -> bool {
    (y - a.1) * (b.0 - a.0) >= (b.1 - a.1) * (x - a.0)
}

/// Whether the breakpoints at `i` and `i + 1` bracket the altitude `x`.
pub open spec fn brackets(points: Seq<Breakpoint>, i: int, x: int) -> bool {
    0 <= i < points.len() - 1 && points[i].0 <= x <= points[i + 1].0
}

/// Whether the rate `y` is at or above the boundary at the altitude `x`. Between two
/// breakpoints the boundary is the straight line through them. At and below the first
/// breakpoint's altitude it is that breakpoint's rate, at and above the last breakpoint's
/// altitude it is the rate of the last one.
pub open spec fn envelope_contains(points: Seq<Breakpoint>, x: int, y: int) -> bool {
    if x <= points.first().0 {
        y >= points.first().1
    } else if x >= points.last().0 {
        y >= points.last().1
    } else {
        exists|i: int| #[trigger]
            brackets(points, i, x) && at_or_above_line(points[i], points[i + 1], x, y)
    }
}

/// At the altitude of the breakpoint `b`, the line from `a` to `b` is at the rate of `b`.
proof fn lemma_line_at_upper_end(a: Breakpoint, b: Breakpoint, y: int)
    requires
        a.0 < b.0,
    ensures
        at_or_above_line(a, b, b.0 as int, y) <==> y >= b.1,
{
    let dx = b.0 - a.0;
    let dy = b.1 - a.1;
    let h = y - a.1;
    assert(h * dx >= dy * dx <==> h >= dy) by (nonlinear_arith)
        requires
            dx > 0,
    ;
}

/// At the altitude of the breakpoint `a`, the line from `a` to `b` is at the rate of `a`.
proof fn lemma_line_at_lower_end(a: Breakpoint, b: Breakpoint, y: int)
    requires
        a.0 < b.0,
    ensures
        at_or_above_line(a, b, a.0 as int, y) <==> y >= a.1,
{
    let dx = b.0 - a.0;
    let h = y - a.1;
    assert(h * dx >= 0 <==> h >= 0) by (nonlinear_arith)
        requires
            dx > 0,
    ;
}

/// Every pair of breakpoints that brackets an altitude gives the same answer.
proof fn lemma_brackets_agree(points: Seq<Breakpoint>, i: int, j: int, x: int, y: int)
    requires
        valid_breakpoints(points),
        brackets(points, i, x),
        brackets(points, j, x),
    ensures
        at_or_above_line(points[i], points[i + 1], x, y) <==> at_or_above_line(
            points[j],
            points[j + 1],
            x,
            y,
        ),
{
    // Two different pairs share a breakpoint, and the altitude is that of this breakpoint.
    if i < j {
        lemma_line_at_upper_end(points[i], points[j], y);
        lemma_line_at_lower_end(points[j], points[j + 1], y);
    } else if j < i {
        lemma_line_at_upper_end(points[j], points[i], y);
        lemma_line_at_lower_end(points[i], points[i + 1], y);
    }
}

/// A rate that is within an envelope stays within it when it grows: the envelope is
/// unbounded towards higher rates of descent.
pub proof fn lemma_contains_monotonic(points: Seq<Breakpoint>, x: int, y: int, higher: int)
    requires
        valid_breakpoints(points),
        envelope_contains(points, x, y),
        higher >= y,
    ensures
        envelope_contains(points, x, higher),
{
    if points.first().0 < x < points.last().0 {
        let i = choose|i: int| #[trigger]
            brackets(points, i, x) && at_or_above_line(points[i], points[i + 1], x, y);
        let dx = points[i + 1].0 - points[i].0;
        let low = y - points[i].1;
        let high = higher - points[i].1;
        assert(high * dx >= low * dx) by (nonlinear_arith)
            requires
                dx > 0,
                high >= low,
        ;
    }
}

/// The error of making an envelope of breakpoints that are fewer than two or whose
/// altitudes do not increase strictly.
#[derive(Copy, Clone, Debug, PartialEq, Eq)]
pub struct InvalidEnvelope;

/// A boundary over altitude above ground and rate of descent, given by breakpoints.
///
/// Altitudes and rates are whole numbers in units that the user of the envelope chooses.
/// The breakpoints are 32-bit numbers; a point that is tested against the envelope may lie
/// anywhere in the range of 64-bit numbers.
#[derive(Debug)]
pub struct Envelope {
    points: Vec<Breakpoint>,
}

impl View for Envelope {
    type V = Seq<Breakpoint>;

    /// The breakpoints of the envelope, by increasing altitude.
    closed spec fn view(&self) -> Seq<Breakpoint> {
        self.points@
    }
}

impl Envelope {
    #[verifier::type_invariant]
    spec fn well_formed(&self) -> bool {
        valid_breakpoints(self.points@)
    }

    /// Makes an envelope of the given breakpoints. Fails if they are fewer than two, or if
    /// the altitude of one is not above the altitude of the one before it.
    pub fn new(points: Vec<Breakpoint>) -> (envelope: Result<Envelope, InvalidEnvelope>)
        ensures
            match envelope {
                Ok(envelope) => envelope@ == points@ && valid_breakpoints(points@),
                Err(_) => !valid_breakpoints(points@),
            },
    {
        let n: usize = points.len();
        if n < 2 {
            return Err(InvalidEnvelope);
        }
        let mut k: usize = 1;
        while k < n
            invariant
                1 <= k <= n,
                n == points.len(),
                forall|i: int, j: int| 0 <= i < j < k ==> points[i].0 < points[j].0,
            decreases n - k,
        {
            if points[k - 1].0 >= points[k].0 {
                return Err(InvalidEnvelope);
            }
            k = k + 1;
        }
        Ok(Envelope { points })
    }

    /// Whether the point is within the envelope: whether `rate` is at or above the
    /// boundary at `altitude`.
    pub fn contains(&self, altitude: i64, rate: i64) -> (within: bool)
        ensures
            within == envelope_contains(self@, altitude as int, rate as int),
    {
        proof {
            use_type_invariant(self);
        }
        let n: usize = self.points.len();
        let first = self.points[0];
        let last = self.points[n - 1];
        if altitude <= first.0 as i64 {
            return rate >= first.1 as i64;
        }
        if altitude >= last.0 as i64 {
            return rate >= last.1 as i64;
        }
        let mut i: usize = 0;
        while altitude > self.points[i + 1].0 as i64
            invariant
                valid_breakpoints(self.points@),
                n == self.points.len(),
                0 <= i < n - 1,
                self.points[i as int].0 < altitude,
                altitude < self.points[n - 1].0,
            decreases n - i,
        {
            i = i + 1;
        }
        let a = self.points[i];
        let b = self.points[i + 1];
        let height: i128 = rate as i128 - a.1 as i128;
        let width: i128 = b.0 as i128 - a.0 as i128;
        let rise: i128 = b.1 as i128 - a.1 as i128;
        let run: i128 = altitude as i128 - a.0 as i128;
        proof {
            assert(-0x1_0000_0000_0000_0000_0000_0000 < height * width
                < 0x1_0000_0000_0000_0000_0000_0000) by (nonlinear_arith)
                requires
                    -0x1_0000_0000_0000_0000 < height < 0x1_0000_0000_0000_0000,
                    0 < width < 0x1_0000_0000,
            ;
            assert(-0x1_0000_0000_0000_0000_0000_0000 < rise * run
                < 0x1_0000_0000_0000_0000_0000_0000) by (nonlinear_arith)
                requires
                    -0x1_0000_0000 < rise < 0x1_0000_0000,
                    0 < run < 0x1_0000_0000_0000_0000,
            ;
        }
        let within = height * width >= rise * run;
        proof {
            let x = altitude as int;
            let y = rate as int;
            assert(brackets(self@, i as int, x));
            if envelope_contains(self@, x, y) {
                let j = choose|j: int| #[trigger]
                    brackets(self@, j, x) && at_or_above_line(self@[j], self@[j + 1], x, y);
                lemma_brackets_agree(self@, i as int, j, x, y);
            }
        }
        within
    }
}

} // verus!
