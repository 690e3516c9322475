//! The termination policy of the sphere tracer.
//!
//! A ray is marched from its origin in steps. Each step reads the distance
//! field at the point reached so far and then either reports a hit, gives the
//! ray up as a miss, or advances by the distance read. Distances are
//! millionths of a world unit. The distance field itself is not part of this
//! module: a march is driven by the readings it is given.
//!
//! The field of the scene is a bound from below only for whole primitives; for
//! a primitive with its middle cut out the reading can be too large, and a
//! march may step over a thin shell. That is accepted, and no step is damped
//! on its account.

use vstd::prelude::*;

verus! {

/// Most readings a march takes.
pub const MAX_STEPS: u32 = 80;

/// A reading below this distance is a hit.
pub const HIT_DISTANCE: i64 = 2_000;

/// A march that would go beyond this distance is a miss.
pub const FAR_DISTANCE: i64 = 30_000_000;

/// Where a march stands.
#[derive(Clone, Copy, Debug, PartialEq, Eq)]
pub enum Status {
    /// The next reading is due.
    Marching,
    /// The ray reached a surface.
    Hit,
    /// The ray left the scene or ran out of steps.
    Miss,
}

/// What a march holds: where it stands, how many readings it has taken, and
/// how far along the ray the last reading was taken.
pub struct MarchState {
    pub status: Status,
    pub steps: nat,
    pub travelled: int,
}

/// The state of a march before its first reading.
pub open spec fn started() -> MarchState {
    MarchState { status: Status::Marching, steps: 0, travelled: 0 }
}

/// The state after one more reading. A reading below [`HIT_DISTANCE`] is a
/// hit at the point it was taken at. Any other reading is the length of the
/// next step: the march is a miss if that step leads beyond [`FAR_DISTANCE`]
/// or if the reading was the last of [`MAX_STEPS`], and goes on from the end
/// of the step otherwise. A march that is over takes no reading.
pub open spec fn advanced(state: MarchState, reading: i64) -> MarchState {
    if state.status != Status::Marching {
        state
    } else if reading < HIT_DISTANCE {
        MarchState { status: Status::Hit, steps: state.steps + 1, travelled: state.travelled }
    } else if state.travelled + reading > FAR_DISTANCE || state.steps + 1 >= MAX_STEPS {
        MarchState { status: Status::Miss, steps: state.steps + 1, travelled: state.travelled }
    } else {
        MarchState {
            status: Status::Marching,
            steps: state.steps + 1,
            travelled: state.travelled + reading,
        }
    }
}

/// The state after a run of readings.
pub open spec fn marched(readings: Seq<i64>) -> MarchState
    decreases readings.len(),
{
    if readings.len() == 0 {
        started()
    } else {
        advanced(marched(readings.drop_last()), readings.last())
    }
}

/// What holds of every state of a march: it has taken at most [`MAX_STEPS`]
/// readings, fewer while it goes on, and at least one when it is over; and no
/// reading was taken beyond [`FAR_DISTANCE`].
pub open spec fn bounded(state: MarchState) -> bool {
    &&& state.steps <= MAX_STEPS
    &&& state.status == Status::Marching ==> state.steps < MAX_STEPS
    &&& state.status != Status::Marching ==> state.steps >= 1
    &&& 0 <= state.travelled <= FAR_DISTANCE
}

/// Whether each reading of the run is one that `distance` can give at the
/// point the march had reached by then.
pub open spec fn sampled<F: Fn(i64) -> i64>(distance: F, readings: Seq<i64>) -> bool {
    forall|i: int|
        0 <= i < readings.len() ==> call_ensures(
            distance,
            (marched(readings.take(i)).travelled as i64,),
            #[trigger] readings[i],
        )
}

/// A march along one ray.
#[derive(Clone, Copy, Debug)]
pub struct March {
    status: Status,
    steps: u32,
    travelled: i64,
}

impl View for March {
    type V = MarchState;

    closed spec fn view(&self) -> MarchState {
        MarchState {
            status: self.status,
            steps: self.steps as nat,
            travelled: self.travelled as int,
        }
    }
}

impl March {
    #[verifier::type_invariant]
    spec fn well_formed(self) -> bool {
        bounded(self@)
    }

    /// A march that has taken no reading yet.
    pub fn start() -> (march: March)
        ensures
            march@ == started(),
    {
        March { status: Status::Marching, steps: 0, travelled: 0 }
    }

    /// Where the march stands.
    pub fn status(&self) -> (status: Status)
        ensures
            status == self@.status,
    {
        self.status
    }

    /// Whether the next reading is due.
    pub fn is_marching(&self) -> (going: bool)
        ensures
            going <==> self@.status == Status::Marching,
            going ==> self@.steps < MAX_STEPS,
    {
        proof {
            use_type_invariant(self);
        }
        match self.status {
            Status::Marching => true,
            _ => false,
        }
    }

    /// Whether the ray reached a surface.
    pub fn is_hit(&self) -> (hit: bool)
        ensures
            hit <==> self@.status == Status::Hit,
            hit ==> 1 <= self@.steps <= MAX_STEPS,
    {
        proof {
            use_type_invariant(self);
        }
        match self.status {
            Status::Hit => true,
            _ => false,
        }
    }

    /// Number of readings taken.
    pub fn steps(&self) -> (steps: u32)
        ensures
            steps == self@.steps,
            steps <= MAX_STEPS,
    {
        proof {
            use_type_invariant(self);
        }
        self.steps
    }

    /// Distance along the ray at which the last reading was taken, or is to
    /// be taken while the march goes on. For a hit this is where the surface
    /// was met.
    pub fn travelled(&self) -> (travelled: i64)
        ensures
            travelled == self@.travelled,
            0 <= travelled <= FAR_DISTANCE,
    {
        proof {
            use_type_invariant(self);
        }
        self.travelled
    }

    /// Takes in the distance read at the point the march has reached.
    pub fn advance(self, reading: i64) -> (next: March)
        ensures
            next@ == advanced(self@, reading),
            bounded(next@),
    {
        proof {
            use_type_invariant(&self);
        }
        match self.status {
            Status::Marching => {
                if reading < HIT_DISTANCE {
                    March { status: Status::Hit, steps: self.steps + 1, travelled: self.travelled }
                } else if reading > FAR_DISTANCE - self.travelled || self.steps + 1 >= MAX_STEPS {
                    March { status: Status::Miss, steps: self.steps + 1, travelled: self.travelled }
                } else {
                    March {
                        status: Status::Marching,
                        steps: self.steps + 1,
                        travelled: self.travelled + reading,
                    }
                }
            },
            _ => self,
        }
    }
}

/// Marches one ray to its end. `distance` reads the distance field at the
/// point that lies the given distance along the ray; it is asked once per
/// step, each time for the point reached so far.
pub fn trace<F: Fn(i64) -> i64>(distance: F) -> (end: March)
    requires
        forall|along: i64| 0 <= along <= FAR_DISTANCE ==> call_requires(distance, (along,)),
    ensures
        end@.status != Status::Marching,
        exists|readings: Seq<i64>|
            #![trigger marched(readings)]
            sampled(distance, readings) && readings.len() == end@.steps && end@ == marched(
                readings,
            ),
{
    let mut march: March = March::start();
    let ghost mut readings: Seq<i64> = Seq::empty();
    while march.is_marching()
        invariant
            forall|along: i64| 0 <= along <= FAR_DISTANCE ==> call_requires(distance, (along,)),
            march@ == marched(readings),
            readings.len() == march@.steps,
            sampled(distance, readings),
            march@.steps <= MAX_STEPS,
        decreases MAX_STEPS - march@.steps,
    {
        let along: i64 = march.travelled();
        let reading: i64 = distance(along);
        proof {
            let grown = readings.push(reading);
            assert(grown.drop_last() =~= readings);
            assert forall|i: int| 0 <= i < grown.len() implies call_ensures(
                distance,
                (marched(grown.take(i)).travelled as i64,),
                #[trigger] grown[i],
            ) by {
                if i < readings.len() {
                    assert(grown.take(i) =~= readings.take(i));
                } else {
                    assert(grown.take(i) =~= readings);
                }
            }
            readings = grown;
        }
        march = march.advance(reading);
    }
    march
}

/// A march that never reads more than the distance left to a surface never
/// goes past that surface: `surface` is how far down the ray it lies, and
/// each reading is at most what is left of that from where it was taken.
pub proof fn lemma_no_overstep(readings: Seq<i64>, surface: int)
    requires
        surface >= 0,
        forall|i: int|
            0 <= i < readings.len() ==> #[trigger] readings[i] <= surface - marched(
                readings.take(i),
            ).travelled,
    ensures
        marched(readings).travelled <= surface,
    decreases readings.len(),
{
    if readings.len() > 0 {
        let before = readings.drop_last();
        assert forall|i: int| 0 <= i < before.len() implies #[trigger] before[i] <= surface
            - marched(before.take(i)).travelled by {
            assert(before.take(i) =~= readings.take(i));
            assert(before[i] == readings[i]);
        }
        lemma_no_overstep(before, surface);
        assert(readings.take(readings.len() - 1) =~= before);
        assert(readings[readings.len() - 1] == readings.last());
    }
}

/// Whatever the readings, the march they drive is bounded: it never reports
/// a hit before its first reading, never takes more than [`MAX_STEPS`]
/// readings, and never takes one beyond [`FAR_DISTANCE`].
pub proof fn lemma_march_bounded(readings: Seq<i64>)
    ensures
        bounded(marched(readings)),
        marched(readings).steps <= readings.len(),
    decreases readings.len(),
{
    if readings.len() > 0 {
        lemma_march_bounded(readings.drop_last());
    }
}

} // verus!
