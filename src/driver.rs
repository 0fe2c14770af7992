use vstd::prelude::*;

use crate::channel::{SansIo, State};
use crate::error::Error;

verus! {

/// What one resumption of a computation produced.
pub enum Progress<Return> {
    /// The computation submitted a request and is waiting for its response.
    Suspended,
    /// The computation finished with this result.
    Finished(Return),
}

/// A resumable computation that talks to the outside world only through a
/// handshake channel.
///
/// Each resumption runs the computation up to its next suspension point:
/// it consumes the response delivered for its previous request, if any, and
/// then either submits exactly one new request and suspends, or finishes.
///
/// What `Driver::step` guarantees holds for impls that meet the contract of
/// `resume`; Verus checks that contract only for impls it verifies. The
/// model functions below have defaults so that impls outside Verus compile;
/// a verified impl defines them for itself, and generic code such as
/// `Driver::step` never relies on the defaults.
pub trait Task<Args, Returns, Return>: Sized {
    /// The identity of the channel this computation talks to.
    open spec fn channel_id(self) -> int {
        0
    }

    /// Whether the computation is suspended, waiting for the response to the
    /// request it submitted last.
    open spec fn awaiting(self) -> bool {
        false
    }

    /// The computation in state `self`, resumed once, can move to state
    /// `next` with `outcome`.
    open spec fn resumes_to(self, next: Self, outcome: Progress<Return>) -> bool {
        true
    }

    fn resume(&mut self, sio: &mut SansIo<Args, Returns>) -> (r: Progress<Return>)
        requires
            old(self).channel_id() == old(sio).id(),
            old(sio)@.wf(),
            old(sio)@.state == State::Ready || old(sio)@.state == State::Responded,
            old(self).awaiting() <==> old(sio)@.state == State::Responded,
        ensures
            (*old(self)).resumes_to(*final(self), r),
            final(self).awaiting() <==> r is Suspended,
            final(self).channel_id() == old(self).channel_id(),
            final(sio).id() == old(sio).id(),
            final(sio)@.wf(),
            r is Suspended ==> final(sio)@ == old(sio)@.settled().invoked(final(sio)@.request->0),
            r is Finished ==> final(sio)@ == old(sio)@.settled(),
    ;
}

/// The outcome of a driver step.
pub enum Step<Api, Return> {
    /// The computation needs this request answered before it can go on.
    Next(Api),
    /// The computation finished with this result.
    Return(Return),
}

/// Owns a suspended computation and advances it one request at a time.
pub struct Driver<T> {
    task: T,
    resumptions: Ghost<nat>,
}

impl<T> Driver<T> {
    /// The computation this driver owns.
    pub closed spec fn task(&self) -> T {
        self.task
    }

    /// How many times the computation has been resumed.
    pub closed spec fn resumptions(&self) -> nat {
        self.resumptions@
    }

    /// A driver for a computation that has not started yet.
    pub fn new(task: T) -> (r: Self)
        ensures
            r.task() == task,
            r.resumptions() == 0,
    {
        Driver { task, resumptions: Ghost(0) }
    }

    /// Resumes the computation exactly once.
    ///
    /// On a channel in state `Calling` or `Responding` nothing happens and the
    /// step fails with `InvalidStepAttempt`. Otherwise the computation, which
    /// must talk to this channel and await a response exactly when one has
    /// been delivered, is resumed once: it first consumes the delivered
    /// response, if there is one; then either it submits a request, which the
    /// driver takes from the channel and returns as `Next`, or it finishes
    /// without submitting and the result it finished with is returned as
    /// `Return`, the channel being ready.
    pub fn step<Args, Returns, Return>(
        &mut self,
        sio: &mut SansIo<Args, Returns>,
    ) -> (r: Result<Step<Args, Return>, Error>) where T: Task<Args, Returns, Return>
        requires
            old(self).task().channel_id() == old(sio).id(),
            old(sio)@.wf(),
            old(sio)@.state == State::Ready ==> !old(self).task().awaiting(),
            old(sio)@.state == State::Responded ==> old(self).task().awaiting(),
        ensures
            final(sio)@.wf(),
            final(sio).id() == old(sio).id(),
            final(self).task().channel_id() == old(self).task().channel_id(),
            (old(sio)@.state == State::Calling || old(sio)@.state == State::Responding) ==> r
                == Err::<Step<Args, Return>, Error>(Error::InvalidStepAttempt)
                && final(sio)@ == old(sio)@
                && *final(self) == *old(self),
            (old(sio)@.state == State::Ready || old(sio)@.state == State::Responded) ==> r is Ok,
            r is Ok ==> final(self).resumptions() == old(self).resumptions() + 1,
            r is Ok ==> (final(self).task().awaiting() <==> r matches Ok(Step::Next(_))),
            r matches Ok(Step::Next(_)) ==> old(self).task().resumes_to(
                final(self).task(),
                Progress::Suspended,
            ),
            r matches Ok(Step::Return(v)) ==> old(self).task().resumes_to(
                final(self).task(),
                Progress::Finished(v),
            ),
            r matches Ok(Step::Next(a)) ==> final(sio)@ == old(sio)@.settled().invoked(a).taken(),
            r matches Ok(Step::Return(_)) ==> final(sio)@ == old(sio)@.settled()
                && final(sio)@.state == State::Ready,
    {
        if !(sio.in_state(State::Ready) || sio.in_state(State::Responded)) {
            return Err(Error::InvalidStepAttempt);
        }
        self.resumptions = Ghost(self.resumptions@ + 1);
        match self.task.resume(sio) {
            Progress::Finished(ret) => Ok(Step::Return(ret)),
            Progress::Suspended => Ok(Step::Next(sio.take_request())),
        }
    }
}

} // verus!
