//! Value animations: a value driven from a start to an end over a duration,
//! by an easing curve of the elapsed fraction.
//!
//! Each animation keeps `elapsed` within `[0, duration]`. Advancing it adds
//! the time that passed and clamps the sum to the duration, so the value holds
//! at the end once it is reached.
use vstd::prelude::*;
use crate::ieee::{lemma_same_nonnegative, less, ZERO};
use crate::math::{lemma_unsigned_from_positive, positive_ok, Number, Positive, Unsigned};

verus! {

/// What an animation holds, as bit patterns of its four quantities.
pub struct Timeline {
    pub start: u32,
    pub end: u32,
    pub duration: u32,
    pub elapsed: u32,
}

/// The elapsed time after it has grown to `candidate`: never past `duration`.
pub open spec fn clamped(candidate: u32, duration: u32) -> u32 {
    if less(duration, candidate) {
        duration
    } else {
        candidate
    }
}

/// The timeline once the elapsed time has grown to `candidate`.
pub open spec fn settled(t: Timeline, candidate: u32) -> Timeline {
    Timeline { elapsed: clamped(candidate, t.duration), ..t }
}

/// Once the elapsed time has reached the duration, advancing again leaves the
/// timeline exactly as it is.
pub proof fn lemma_settled_at_end(t: Timeline, candidate: u32)
    requires
        positive_ok(t.duration),
        t.elapsed == t.duration,
        !less(candidate, t.elapsed),
    ensures
        settled(t, candidate) == t,
{
    if !less(t.duration, candidate) {
        lemma_same_nonnegative(candidate, t.duration);
    }
}

/// Whatever time passes, the elapsed time never passes the duration.
pub proof fn lemma_settled_bounded(t: Timeline, candidate: u32)
    ensures
        !less(settled(t, candidate).duration, settled(t, candidate).elapsed),
{
}

#[derive(Debug, Clone, Copy, PartialEq, Eq, Structural)]
pub enum NewAnimationError {
    DurationZero,
}

/// Moves at a constant rate: `start + (end - start) * p` at progress `p`.
#[derive(Debug, Clone, Copy)]
pub struct Linear {
    start: Number,
    end: Number,
    duration: Positive,
    elapsed: Unsigned,
}

impl View for Linear {
    type V = Timeline;

    closed spec fn view(&self) -> Timeline {
        Timeline {
            start: self.start@,
            end: self.end@,
            duration: self.duration@,
            elapsed: self.elapsed@,
        }
    }
}

impl Linear {
    #[verifier::type_invariant]
    pub open spec fn inv(&self) -> bool {
        !less(self@.duration, self@.elapsed)
    }

    /// Starts at the beginning; `duration` is the pattern of a number of
    /// seconds, which must be finite and above zero.
    pub fn new(start: Number, end: Number, duration: u32) -> (r: Result<Linear, NewAnimationError>)
        ensures
            r is Ok <==> positive_ok(duration),
            r matches Ok(a) ==> a@ == (Timeline { start: start@, end: end@, duration, elapsed: ZERO }),
            !positive_ok(duration) ==> r == Err::<Linear, NewAnimationError>(
                NewAnimationError::DurationZero,
            ),
    {
        let duration = match Positive::new(duration) {
            Ok(d) => d,
            Err(_) => {
                return Err(NewAnimationError::DurationZero);
            },
        };
        Ok(Linear { start, end, duration, elapsed: Unsigned::zero() })
    }

    pub fn start(&self) -> (r: Number)
        ensures
            r@ == self@.start,
    {
        self.start
    }

    pub fn end(&self) -> (r: Number)
        ensures
            r@ == self@.end,
    {
        self.end
    }

    pub fn duration(&self) -> (r: Positive)
        ensures
            r@ == self@.duration,
    {
        self.duration
    }

    pub fn elapsed(&self) -> (r: Unsigned)
        ensures
            r@ == self@.elapsed,
    {
        self.elapsed
    }

    /// Moves the elapsed time to `candidate`, the old elapsed time plus the
    /// seconds that passed, held to the duration.
    pub fn settle(&mut self, candidate: Unsigned)
        ensures
            final(self)@ == settled(old(self)@, candidate@),
    {
        let next = if candidate > self.duration {
            proof { lemma_unsigned_from_positive(self.duration); }
            Unsigned::from(self.duration)
        } else {
            candidate
        };
        self.elapsed = next;
    }
}

/// Starts slowly and speeds up: `start + (end - start) * p * p`.
#[derive(Debug, Clone, Copy)]
pub struct Exponential {
    start: Number,
    end: Number,
    duration: Positive,
    elapsed: Unsigned,
}

impl View for Exponential {
    type V = Timeline;

    closed spec fn view(&self) -> Timeline {
        Timeline {
            start: self.start@,
            end: self.end@,
            duration: self.duration@,
            elapsed: self.elapsed@,
        }
    }
}

impl Exponential {
    #[verifier::type_invariant]
    pub open spec fn inv(&self) -> bool {
        !less(self@.duration, self@.elapsed)
    }

    /// Starts at the beginning; `duration` is the pattern of a number of
    /// seconds, which must be finite and above zero.
    pub fn new(start: Number, end: Number, duration: u32) -> (r: Result<Exponential, NewAnimationError>)
        ensures
            r is Ok <==> positive_ok(duration),
            r matches Ok(a) ==> a@ == (Timeline { start: start@, end: end@, duration, elapsed: ZERO }),
            !positive_ok(duration) ==> r == Err::<Exponential, NewAnimationError>(
                NewAnimationError::DurationZero,
            ),
    {
        let duration = match Positive::new(duration) {
            Ok(d) => d,
            Err(_) => {
                return Err(NewAnimationError::DurationZero);
            },
        };
        Ok(Exponential { start, end, duration, elapsed: Unsigned::zero() })
    }

    pub fn start(&self) -> (r: Number)
        ensures
            r@ == self@.start,
    {
        self.start
    }

    pub fn end(&self) -> (r: Number)
        ensures
            r@ == self@.end,
    {
        self.end
    }

    pub fn duration(&self) -> (r: Positive)
        ensures
            r@ == self@.duration,
    {
        self.duration
    }

    pub fn elapsed(&self) -> (r: Unsigned)
        ensures
            r@ == self@.elapsed,
    {
        self.elapsed
    }

    /// Moves the elapsed time to `candidate`, the old elapsed time plus the
    /// seconds that passed, held to the duration.
    pub fn settle(&mut self, candidate: Unsigned)
        ensures
            final(self)@ == settled(old(self)@, candidate@),
    {
        let next = if candidate > self.duration {
            proof { lemma_unsigned_from_positive(self.duration); }
            Unsigned::from(self.duration)
        } else {
            candidate
        };
        self.elapsed = next;
    }
}

/// Eases in and out: `start + (end - start) * p * p * (3 - 2 * p)`.
#[derive(Debug, Clone, Copy)]
pub struct Bounce {
    start: Number,
    end: Number,
    duration: Positive,
    elapsed: Unsigned,
}

impl View for Bounce {
    type V = Timeline;

    closed spec fn view(&self) -> Timeline {
        Timeline {
            start: self.start@,
            end: self.end@,
            duration: self.duration@,
            elapsed: self.elapsed@,
        }
    }
}

impl Bounce {
    #[verifier::type_invariant]
    pub open spec fn inv(&self) -> bool {
        !less(self@.duration, self@.elapsed)
    }

    /// Starts at the beginning; `duration` is the pattern of a number of
    /// seconds, which must be finite and above zero.
    pub fn new(start: Number, end: Number, duration: u32) -> (r: Result<Bounce, NewAnimationError>)
        ensures
            r is Ok <==> positive_ok(duration),
            r matches Ok(a) ==> a@ == (Timeline { start: start@, end: end@, duration, elapsed: ZERO }),
            !positive_ok(duration) ==> r == Err::<Bounce, NewAnimationError>(
                NewAnimationError::DurationZero,
            ),
    {
        let duration = match Positive::new(duration) {
            Ok(d) => d,
            Err(_) => {
                return Err(NewAnimationError::DurationZero);
            },
        };
        Ok(Bounce { start, end, duration, elapsed: Unsigned::zero() })
    }

    pub fn start(&self) -> (r: Number)
        ensures
            r@ == self@.start,
    {
        self.start
    }

    pub fn end(&self) -> (r: Number)
        ensures
            r@ == self@.end,
    {
        self.end
    }

    pub fn duration(&self) -> (r: Positive)
        ensures
            r@ == self@.duration,
    {
        self.duration
    }

    pub fn elapsed(&self) -> (r: Unsigned)
        ensures
            r@ == self@.elapsed,
    {
        self.elapsed
    }

    /// Moves the elapsed time to `candidate`, the old elapsed time plus the
    /// seconds that passed, held to the duration.
    pub fn settle(&mut self, candidate: Unsigned)
        ensures
            final(self)@ == settled(old(self)@, candidate@),
    {
        let next = if candidate > self.duration {
            proof { lemma_unsigned_from_positive(self.duration); }
            Unsigned::from(self.duration)
        } else {
            candidate
        };
        self.elapsed = next;
    }
}

} // verus!
