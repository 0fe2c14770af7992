use vstd::prelude::*;

use crate::error::Error;

verus! {

/// The protocol state of a handshake channel.
///
/// One round trip runs `Ready -> Calling -> Responding -> Responded -> Ready`.
#[derive(Clone, Copy, Debug, PartialEq, Eq, Structural)]
pub enum State {
    Ready,
    Calling,
    Responding,
    Responded,
}

/// The mathematical model of a handshake channel: its state, its two slots,
/// and the histories of every request submitted and every response handed
/// back to the computation.
pub struct ChannelModel<Args, Returns> {
    pub state: State,
    pub request: Option<Args>,
    pub response: Option<Returns>,
    pub submitted: Seq<Args>,
    pub received: Seq<Returns>,
}

impl<Args, Returns> ChannelModel<Args, Returns> {
    /// Which slot is populated is fully determined by the state.
    pub open spec fn wf(self) -> bool {
        match self.state {
            State::Ready => self.request is None && self.response is None,
            State::Calling => self.request is Some && self.response is None,
            State::Responding => self.request is None && self.response is None,
            State::Responded => self.request is None && self.response is Some,
        }
    }

    /// A fresh channel: ready, with empty slots and empty histories.
    pub open spec fn initial() -> Self {
        ChannelModel {
            state: State::Ready,
            request: None,
            response: None,
            submitted: Seq::empty(),
            received: Seq::empty(),
        }
    }

    /// After a request is submitted on a ready channel.
    pub open spec fn invoked(self, args: Args) -> Self {
        ChannelModel {
            state: State::Calling,
            request: Some(args),
            submitted: self.submitted.push(args),
            ..self
        }
    }

    /// After the driver takes the pending request.
    pub open spec fn taken(self) -> Self {
        ChannelModel { state: State::Responding, request: None, ..self }
    }

    /// After a response is delivered.
    pub open spec fn responded(self, ret: Returns) -> Self {
        ChannelModel { state: State::Responded, response: Some(ret), ..self }
    }

    /// After the computation takes the delivered response.
    pub open spec fn resumed(self) -> Self {
        ChannelModel {
            state: State::Ready,
            response: None,
            received: self.received.push(self.response->0),
            ..self
        }
    }

    /// A delivered response is consumed; any other channel is left as it is.
    pub open spec fn settled(self) -> Self {
        if self.state == State::Responded {
            self.resumed()
        } else {
            self
        }
    }

    /// One full round trip: submit `args`, take it, deliver `ret`, resume.
    pub open spec fn round_trip(self, args: Args, ret: Returns) -> Self {
        self.invoked(args).taken().responded(ret).resumed()
    }
}

/// The handshake channel: a single-slot mailbox through which a suspended
/// computation and its driver exchange exactly one request and one response
/// per round trip.
pub struct SansIo<Args, Returns = Args> {
    args: Option<Args>,
    ret: Option<Returns>,
    st: State,
    submitted: Ghost<Seq<Args>>,
    received: Ghost<Seq<Returns>>,
    id: Ghost<int>,
}

impl<Args, Returns> View for SansIo<Args, Returns> {
    type V = ChannelModel<Args, Returns>;

    closed spec fn view(&self) -> ChannelModel<Args, Returns> {
        ChannelModel {
            state: self.st,
            request: self.args,
            response: self.ret,
            submitted: self.submitted@,
            received: self.received@,
        }
    }
}

impl<Args, Returns> SansIo<Args, Returns> {
    /// The identity of this channel, which every handle it gives out carries.
    pub closed spec fn id(&self) -> int {
        self.id@
    }

    /// A new channel in state `Ready` with both slots empty.
    pub fn new() -> (r: Self)
        ensures
            r@ == ChannelModel::<Args, Returns>::initial(),
            r@.wf(),
    {
        SansIo {
            args: None,
            ret: None,
            st: State::Ready,
            submitted: Ghost(Seq::empty()),
            received: Ghost(Seq::empty()),
            id: Ghost(arbitrary()),
        }
    }

    /// Whether the channel is currently in state `st`.
    pub fn in_state(&self, st: State) -> (r: bool)
        ensures
            r == (self@.state == st),
    {
        st == self.st
    }

    /// Moves the channel from state `from` to state `to`.
    fn transition(&mut self, from: State, to: State)
        requires
            old(self)@.state == from,
        ensures
            final(self)@ == (ChannelModel { state: to, ..old(self)@ }),
            final(self).id() == old(self).id(),
    {
        self.st = to;
    }

    /// Submits a request. On a ready channel the request is stored, the
    /// channel moves to `Calling`, and a handle to await the response is
    /// returned; in any other state the channel is left untouched and the
    /// call fails with `InvalidInvocation`.
    pub fn invoke(&mut self, args: Args) -> (r: Result<SansIoFuture, Error>)
        requires
            old(self)@.wf(),
        ensures
            final(self)@.wf(),
            final(self).id() == old(self).id(),
            r matches Ok(f) ==> f.channel() == old(self).id(),
            old(self)@.state == State::Ready ==> r is Ok
                && final(self)@ == old(self)@.invoked(args),
            old(self)@.state != State::Ready ==> r == Err::<SansIoFuture, Error>(Error::InvalidInvocation)
                && final(self)@ == old(self)@,
    {
        if !self.in_state(State::Ready) {
            return Err(Error::InvalidInvocation);
        }
        self.submitted = Ghost(self.submitted@.push(args));
        self.args = Some(args);
        self.transition(State::Ready, State::Calling);
        Ok(SansIoFuture::new(self))
    }

    /// Delivers a response. On a channel whose request has been taken the
    /// response is stored and the channel moves to `Responded`; in any other
    /// state the channel is left untouched and the call fails with
    /// `InvalidResponse`.
    pub fn respond(&mut self, ret: Returns) -> (r: Result<(), Error>)
        requires
            old(self)@.wf(),
        ensures
            final(self)@.wf(),
            final(self).id() == old(self).id(),
            old(self)@.state == State::Responding ==> r is Ok
                && final(self)@ == old(self)@.responded(ret),
            old(self)@.state != State::Responding ==> r == Err::<(), Error>(Error::InvalidResponse)
                && final(self)@ == old(self)@,
    {
        if !self.in_state(State::Responding) {
            return Err(Error::InvalidResponse);
        }
        self.ret = Some(ret);
        self.transition(State::Responding, State::Responded);
        Ok(())
    }

    /// Removes and returns the pending request, moving the channel from
    /// `Calling` to `Responding`.
    pub(crate) fn take_request(&mut self) -> (r: Args)
        requires
            old(self)@.wf(),
            old(self)@.state == State::Calling,
        ensures
            final(self)@.wf(),
            final(self).id() == old(self).id(),
            Some(r) == old(self)@.request,
            final(self)@ == old(self)@.taken(),
    {
        self.transition(State::Calling, State::Responding);
        self.args.take().unwrap()
    }
}

/// A handle on the response to a request submitted on one channel.
pub struct SansIoFuture {
    channel: Ghost<int>,
}

impl SansIoFuture {
    /// The identity of the channel this handle awaits a response from.
    pub closed spec fn channel(&self) -> int {
        self.channel@
    }

    fn new<Args, Returns>(sio: &SansIo<Args, Returns>) -> (r: Self)
        requires
            sio@.state == State::Calling,
        ensures
            r.channel() == sio.id(),
    {
        SansIoFuture { channel: Ghost(sio.id()) }
    }

    /// Checks for the response. While the request is outstanding (`Calling`)
    /// nothing changes and `None` is returned; once a response has been
    /// delivered (`Responded`) it is removed and returned, and the channel
    /// is ready again.
    pub fn poll<Args, Returns>(&self, sio: &mut SansIo<Args, Returns>) -> (r: Option<Returns>)
        requires
            self.channel() == old(sio).id(),
            old(sio)@.wf(),
            old(sio)@.state == State::Calling || old(sio)@.state == State::Responded,
        ensures
            final(sio)@.wf(),
            final(sio).id() == old(sio).id(),
            old(sio)@.state == State::Calling ==> r is None && final(sio)@ == old(sio)@,
            old(sio)@.state == State::Responded ==> r == old(sio)@.response && final(sio)@
                == old(sio)@.resumed(),
    {
        if sio.in_state(State::Calling) {
            None
        } else {
            sio.transition(State::Responded, State::Ready);
            let ret = sio.ret.take();
            proof {
                sio.received@ = sio.received@.push(ret->0);
            }
            ret
        }
    }
}

impl<Args, Returns> Default for SansIo<Args, Returns> {
    fn default() -> (r: Self)
        ensures
            r@ == ChannelModel::<Args, Returns>::initial(),
    {
        Self::new()
    }
}

} // verus!
