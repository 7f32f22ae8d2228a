use vstd::prelude::*;

verus! {

/// The camera backends, in the order in which they are tried.
#[derive(PartialEq, Eq, Structural, Clone, Copy, Debug)]
pub enum Backend {
    /// A fixed-format pipeline through the hardware-accelerated capture API.
    CsiPipeline,
    /// Camera index 0 through the video-for-Linux style API.
    V4l2Index,
    /// Camera index 0 on whatever backend the platform picks.
    AnyIndex,
}

/// Why a backend, or the whole chain, yielded no open device.
#[derive(PartialEq, Eq, Structural, Clone, Copy, Debug)]
pub enum AcquisitionError {
    /// The backend could not even build a handle.
    ConstructionFailed,
    /// A handle was built but reports itself not open.
    NotOpen,
    /// Every backend of the chain failed.
    NoDeviceAvailable,
}

/// Where the fallback chain stands.
#[derive(PartialEq, Eq, Structural, Clone, Copy, Debug)]
pub enum SelectorStep {
    /// The given backend is to be tried next.
    Attempt(Backend),
    /// The given backend opened: the chain is done.
    Selected(Backend),
    /// No backend opened: the chain is done.
    Exhausted,
}

/// The step that follows trying backend `b` with result `r`. A hard
/// construction error of the pipeline backend skips straight to the
/// any-backend fallback; any other failure moves to the next backend.
pub open spec fn step_after(b: Backend, r: Result<(), AcquisitionError>) -> SelectorStep {
    match r {
        Ok(_) => SelectorStep::Selected(b),
        Err(e) => match b {
            Backend::CsiPipeline => if e == AcquisitionError::ConstructionFailed {
                SelectorStep::Attempt(Backend::AnyIndex)
            } else {
                SelectorStep::Attempt(Backend::V4l2Index)
            },
            Backend::V4l2Index => SelectorStep::Attempt(Backend::AnyIndex),
            Backend::AnyIndex => SelectorStep::Exhausted,
        },
    }
}

/// The first step of every selection.
pub open spec fn first_step() -> SelectorStep {
    SelectorStep::Attempt(Backend::CsiPipeline)
}

/// Drives the chain from `step` for at most `fuel` attempts, where `probe`
/// says how each backend fares; gives the backends tried, in order, and the
/// step reached.
pub open spec fn run_chain(
    step: SelectorStep,
    probe: spec_fn(Backend) -> Result<(), AcquisitionError>,
    fuel: nat,
) -> (Seq<Backend>, SelectorStep)
    decreases fuel,
{
    match step {
        SelectorStep::Attempt(b) => if fuel == 0 {
            (Seq::empty(), step)
        } else {
            let rest = run_chain(step_after(b, probe(b)), probe, (fuel - 1) as nat);
            (seq![b] + rest.0, rest.1)
        },
        _ => (Seq::empty(), step),
    }
}

/// A device that the chain opened, with the resolution that was asked of it.
#[derive(PartialEq, Eq, Structural, Clone, Copy, Debug)]
pub struct OpenedDevice {
    pub backend: Backend,
    pub width: u32,
    pub height: u32,
}

/// What the selection yields at `step`: nothing while an attempt is pending.
pub open spec fn outcome_of(step: SelectorStep, width: u32, height: u32) -> Option<
    Result<OpenedDevice, AcquisitionError>,
> {
    match step {
        SelectorStep::Attempt(_) => None,
        SelectorStep::Selected(b) => Some(Ok(OpenedDevice { backend: b, width, height })),
        SelectorStep::Exhausted => Some(Err(AcquisitionError::NoDeviceAvailable)),
    }
}

pub ghost struct SelectorView {
    pub step: SelectorStep,
    pub tried: Seq<Backend>,
    pub width: u32,
    pub height: u32,
}

/// The fallback chain as a state machine: the caller performs each attempt
/// that `next_step` names and reports its result.
pub struct DeviceSelector {
    step: SelectorStep,
    width: u32,
    height: u32,
    tried: Ghost<Seq<Backend>>,
}

impl View for DeviceSelector {
    type V = SelectorView;

    closed spec fn view(&self) -> SelectorView {
        SelectorView { step: self.step, tried: self.tried@, width: self.width, height: self.height }
    }
}

impl DeviceSelector {
    /// A selection for the given preferred resolution, about to try the
    /// pipeline backend.
    pub fn new(preferred_width: u32, preferred_height: u32) -> (r: DeviceSelector)
        ensures
            r@.step == first_step(),
            r@.tried == Seq::<Backend>::empty(),
            r@.width == preferred_width,
            r@.height == preferred_height,
    {
        DeviceSelector {
            step: SelectorStep::Attempt(Backend::CsiPipeline),
            width: preferred_width,
            height: preferred_height,
            tried: Ghost(Seq::empty()),
        }
    }

    pub fn next_step(&self) -> (r: SelectorStep)
        ensures
            r == self@.step,
    {
        self.step
    }

    /// Records the result of the pending attempt; once the chain is done,
    /// further reports change nothing.
    pub fn report(&mut self, result: Result<(), AcquisitionError>)
        ensures
            match old(self)@.step {
                SelectorStep::Attempt(b) => {
                    &&& final(self)@.step == step_after(b, result)
                    &&& final(self)@.tried == old(self)@.tried.push(b)
                },
                _ => final(self)@.step == old(self)@.step && final(self)@.tried
                    == old(self)@.tried,
            },
            final(self)@.width == old(self)@.width,
            final(self)@.height == old(self)@.height,
    {
        match self.step {
            SelectorStep::Attempt(b) => {
                let next = match result {
                    Ok(_) => SelectorStep::Selected(b),
                    Err(e) => match b {
                        Backend::CsiPipeline => match e {
                            AcquisitionError::ConstructionFailed => SelectorStep::Attempt(
                                Backend::AnyIndex,
                            ),
                            _ => SelectorStep::Attempt(Backend::V4l2Index),
                        },
                        Backend::V4l2Index => SelectorStep::Attempt(Backend::AnyIndex),
                        Backend::AnyIndex => SelectorStep::Exhausted,
                    },
                };
                self.step = next;
                self.tried = Ghost(self.tried@.push(b));
            },
            _ => {},
        }
    }

    /// The opened device, `NoDeviceAvailable` once every backend failed, or
    /// `None` while an attempt is pending.
    pub fn outcome(&self) -> (r: Option<Result<OpenedDevice, AcquisitionError>>)
        ensures
            r == outcome_of(self@.step, self@.width, self@.height),
    {
        match self.step {
            SelectorStep::Attempt(_) => None,
            SelectorStep::Selected(b) => Some(
                Ok(OpenedDevice { backend: b, width: self.width, height: self.height }),
            ),
            SelectorStep::Exhausted => Some(Err(AcquisitionError::NoDeviceAvailable)),
        }
    }
}

/// The chain always ends within three attempts, never tries a backend twice,
/// and tries the pipeline backend first.
pub proof fn lemma_chain_terminates(probe: spec_fn(Backend) -> Result<(), AcquisitionError>)
    ensures
        !(run_chain(first_step(), probe, 3).1 is Attempt),
        run_chain(first_step(), probe, 3).0.no_duplicates(),
        run_chain(first_step(), probe, 3).0[0] == Backend::CsiPipeline,
{
    reveal_with_fuel(run_chain, 4);
}

/// When the pipeline backend reports itself not open and the indexed backend
/// opens, the indexed backend is selected and the any-backend fallback is
/// never tried.
pub proof fn lemma_fallback_order(probe: spec_fn(Backend) -> Result<(), AcquisitionError>)
    requires
        probe(Backend::CsiPipeline) == Err::<(), AcquisitionError>(AcquisitionError::NotOpen),
        probe(Backend::V4l2Index) is Ok,
    ensures
        run_chain(first_step(), probe, 3) == (
            seq![Backend::CsiPipeline, Backend::V4l2Index],
            SelectorStep::Selected(Backend::V4l2Index),
        ),
        !run_chain(first_step(), probe, 3).0.contains(Backend::AnyIndex),
{
    reveal_with_fuel(run_chain, 4);
    let tried = run_chain(first_step(), probe, 3).0;
    assert(tried =~= seq![Backend::CsiPipeline, Backend::V4l2Index]);
    assert(tried[0] != Backend::AnyIndex && tried[1] != Backend::AnyIndex);
}

/// When every backend fails, the selection ends in `NoDeviceAvailable` and
/// yields no device to capture from.
pub proof fn lemma_exhaustion_is_fatal(
    probe: spec_fn(Backend) -> Result<(), AcquisitionError>,
    width: u32,
    height: u32,
)
    requires
        forall|b: Backend| #[trigger] probe(b) is Err,
    ensures
        run_chain(first_step(), probe, 3).1 == SelectorStep::Exhausted,
        outcome_of(run_chain(first_step(), probe, 3).1, width, height) == Some(
            Err::<OpenedDevice, AcquisitionError>(AcquisitionError::NoDeviceAvailable),
        ),
{
    reveal_with_fuel(run_chain, 4);
    assert(probe(Backend::CsiPipeline) is Err);
    assert(probe(Backend::V4l2Index) is Err);
    assert(probe(Backend::AnyIndex) is Err);
}

} // verus!
