use vstd::prelude::*;

use crate::channel::{ChannelModel, State};

verus! {

/// The channel after a sequence of complete round trips, the `i`-th one
/// submitting `reqs[i]` and delivering `resps[i]`.
pub open spec fn after_round_trips<Args, Returns>(
    m: ChannelModel<Args, Returns>,
    reqs: Seq<Args>,
    resps: Seq<Returns>,
) -> ChannelModel<Args, Returns>
    recommends
        reqs.len() == resps.len(),
    decreases reqs.len(),
{
    if reqs.len() == 0 || resps.len() == 0 {
        m
    } else {
        after_round_trips(m, reqs.drop_last(), resps.drop_last()).round_trip(
            reqs.last(),
            resps.last(),
        )
    }
}

/// A full round trip on a ready channel passes through the states each
/// operation demands, and leaves the channel ready with both slots empty:
/// only the histories remember it.
pub proof fn round_trip_restores_ready<Args, Returns>(
    m: ChannelModel<Args, Returns>,
    args: Args,
    ret: Returns,
)
    requires
        m.wf(),
        m.state == State::Ready,
    ensures
        m.invoked(args).wf(),
        m.invoked(args).state == State::Calling,
        m.invoked(args).taken().wf(),
        m.invoked(args).taken().state == State::Responding,
        m.invoked(args).taken().responded(ret).wf(),
        m.invoked(args).taken().responded(ret).state == State::Responded,
        m.round_trip(args, ret) == (ChannelModel {
            submitted: m.submitted.push(args),
            received: m.received.push(ret),
            ..m
        }),
        m.round_trip(args, ret).wf(),
{
}

/// Any number of round trips may follow one another on a ready channel;
/// afterwards it is ready with both slots empty, and its histories have
/// grown by exactly the requests submitted and the responses delivered.
pub proof fn round_trips_leave_no_residue<Args, Returns>(
    m: ChannelModel<Args, Returns>,
    reqs: Seq<Args>,
    resps: Seq<Returns>,
)
    requires
        m.wf(),
        m.state == State::Ready,
        reqs.len() == resps.len(),
    ensures
        after_round_trips(m, reqs, resps) == (ChannelModel {
            submitted: m.submitted + reqs,
            received: m.received + resps,
            ..m
        }),
    decreases reqs.len(),
{
    if reqs.len() > 0 {
        let prev = after_round_trips(m, reqs.drop_last(), resps.drop_last());
        round_trips_leave_no_residue(m, reqs.drop_last(), resps.drop_last());
        round_trip_restores_ready(prev, reqs.last(), resps.last());
        assert(m.submitted + reqs =~= (m.submitted + reqs.drop_last()).push(reqs.last()));
        assert(m.received + resps =~= (m.received + resps.drop_last()).push(resps.last()));
    } else {
        assert(m.submitted + reqs =~= m.submitted);
        assert(m.received + resps =~= m.received);
    }
}

/// The request the driver takes is exactly the one submitted, and the
/// response the computation resumes with is exactly the one delivered.
pub proof fn round_trip_fidelity<Args, Returns>(
    m: ChannelModel<Args, Returns>,
    args: Args,
    ret: Returns,
)
    requires
        m.wf(),
        m.state == State::Ready,
    ensures
        m.invoked(args).request == Some(args),
        m.invoked(args).taken().responded(ret).response == Some(ret),
        m.round_trip(args, ret).submitted.last() == args,
        m.round_trip(args, ret).received.last() == ret,
{
}

/// Until a round trip is complete the channel refuses a second request,
/// and it accepts a response only once, and only after the request was
/// taken.
pub proof fn out_of_turn_calls_are_refused<Args, Returns>(
    m: ChannelModel<Args, Returns>,
    args: Args,
    ret: Returns,
)
    requires
        m.wf(),
        m.state == State::Ready,
    ensures
        m.invoked(args).state != State::Ready,
        m.invoked(args).taken().state != State::Ready,
        m.invoked(args).taken().responded(ret).state != State::Ready,
        m.state != State::Responding,
        m.invoked(args).state != State::Responding,
        m.invoked(args).taken().responded(ret).state != State::Responding,
{
}

/// A computation that finishes without submitting leaves a ready channel
/// exactly as it was.
pub proof fn finishing_from_ready_leaves_channel<Args, Returns>(m: ChannelModel<Args, Returns>)
    requires
        m.wf(),
        m.state == State::Ready,
    ensures
        m.settled() == m,
{
}

/// The channel after a driver run: for each `i`, a step that returns
/// `Next(reqs[i])` followed by delivering `resps[i]`, and then the step
/// that returns the result. Each step acts as `step` states: it settles the
/// channel, and a `Next` step then submits and takes one request.
pub open spec fn after_driven_run<Args, Returns>(
    m: ChannelModel<Args, Returns>,
    reqs: Seq<Args>,
    resps: Seq<Returns>,
) -> ChannelModel<Args, Returns>
    decreases reqs.len(),
{
    if reqs.len() == 0 || resps.len() == 0 {
        m.settled()
    } else {
        after_driven_run(
            m.settled().invoked(reqs[0]).taken().responded(resps[0]),
            reqs.drop_first(),
            resps.drop_first(),
        )
    }
}

/// A driver run of `n` steps that return requests, each one answered,
/// followed by the step that returns the result, leaves the channel ready
/// with both slots empty, having recorded exactly those `n` requests, in
/// order, and the `n` responses delivered for them: every step that returns
/// a request accounts for exactly one submission, and the final step for
/// none.
pub proof fn driven_run_records_each_exchange<Args, Returns>(
    m: ChannelModel<Args, Returns>,
    reqs: Seq<Args>,
    resps: Seq<Returns>,
)
    requires
        m.wf(),
        m.state == State::Ready,
        reqs.len() == resps.len(),
    ensures
        after_driven_run(m, reqs, resps) == (ChannelModel {
            submitted: m.submitted + reqs,
            received: m.received + resps,
            ..m
        }),
    decreases reqs.len(),
{
    if reqs.len() > 0 {
        let next = m.round_trip(reqs[0], resps[0]);
        round_trip_restores_ready(m, reqs[0], resps[0]);
        driven_run_records_each_exchange(next, reqs.drop_first(), resps.drop_first());
        assert(m.settled().invoked(reqs[0]).taken().responded(resps[0]).settled() == next);
        assert(after_driven_run(next, reqs.drop_first(), resps.drop_first()) == after_driven_run(
            m.settled().invoked(reqs[0]).taken().responded(resps[0]),
            reqs.drop_first(),
            resps.drop_first(),
        ));
        assert(m.submitted + reqs =~= next.submitted + reqs.drop_first());
        assert(m.received + resps =~= next.received + resps.drop_first());
    } else {
        assert(m.submitted + reqs =~= m.submitted);
        assert(m.received + resps =~= m.received);
    }
}

} // verus!
