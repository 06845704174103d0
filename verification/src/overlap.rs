//! Requests about one report that overlap.
//!
//! Whoever runs the requests holds the report store from the time that a report
//! is fetched until its new version is stored, or until it is clear that there
//! is none.  What holds of any number of requests then is stated here, for any
//! order in which they get their turns, where the report store works.

use vstd::prelude::*;

use crate::failure::HttpFailureView;
use crate::laws;
use crate::laws::Sent;
use crate::report;
use crate::report::{DecisionView, PostFileView, ReportOp, ReportResult};
use crate::request;

verus! {

/// How far the requests have come.  A request goes by its place among them.
pub struct Overlap<R> {
    /// The report in the store.
    pub report: Option<PostFileView<R>>,
    /// Who holds the store, and what report it fetched.
    pub held: Option<(int, Option<PostFileView<R>>)>,
    /// The requests that are over, in the order in which they came to their end.
    pub over: Seq<int>,
    /// What was done about each of those.
    pub did: Map<int, DecisionView<R>>,
}

/// What a request does to the report in the store.
pub open spec fn stored<R>(
    decision: DecisionView<R>,
    report: Option<PostFileView<R>>,
) -> Option<PostFileView<R>> {
    match decision {
        DecisionView::Store(file) => Some(file),
        DecisionView::Reply(_) => report,
    }
}

/// The answer to a request.
pub open spec fn answer<R>(decision: DecisionView<R>) -> Result<ReportResult, HttpFailureView> {
    match decision {
        DecisionView::Store(_) => request::after_store(Ok(())),
        DecisionView::Reply(reply) => reply,
    }
}

/// The request `who` gets a turn: it fetches the report if nobody holds the
/// store, goes on to its end if it holds the store itself, and waits if another
/// request holds it.
pub open spec fn turn<R>(state: Overlap<R>, requests: Seq<Sent<R>>, who: int) -> Overlap<R> {
    if !(0 <= who < requests.len()) || state.did.contains_key(who) {
        state
    } else {
        match state.held {
            None => Overlap { held: Some((who, state.report)), ..state },
            Some((holder, fetched)) => if holder != who {
                state
            } else {
                let decision = laws::outcome(requests[who], fetched);
                Overlap {
                    report: stored(decision, state.report),
                    held: None,
                    over: state.over.push(who),
                    did: state.did.insert(who, decision),
                }
            },
        }
    }
}

/// How far the requests have come after a sequence of turns, from a store that
/// nobody holds.
pub open spec fn after_turns<R>(
    report: Option<PostFileView<R>>,
    requests: Seq<Sent<R>>,
    turns: Seq<int>,
) -> Overlap<R>
    decreases turns.len(),
{
    if turns.len() == 0 {
        Overlap { report, held: None, over: Seq::empty(), did: Map::empty() }
    } else {
        turn(after_turns(report, requests, turns.drop_last()), requests, turns.last())
    }
}

/// The requests of a given order.
pub open spec fn in_order<R>(requests: Seq<Sent<R>>, order: Seq<int>) -> Seq<Sent<R>> {
    order.map_values(|i: int| requests[i])
}

/// The report after requests about it that came one after the other.
pub open spec fn after_all<R>(
    report: Option<PostFileView<R>>,
    requests: Seq<Sent<R>>,
) -> Option<PostFileView<R>>
    decreases requests.len(),
{
    if requests.len() == 0 {
        report
    } else {
        laws::kept(requests.last(), after_all(report, requests.drop_last()))
    }
}

/// Whether the requests that are over went as if they had come one after the
/// other, each once, in the order in which they came to their end: what was done
/// about each is its outcome on what those before it left, and the store holds
/// what they all leave.
pub open spec fn serial<R>(
    state: Overlap<R>,
    report: Option<PostFileView<R>>,
    requests: Seq<Sent<R>>,
) -> bool {
    &&& state.over.no_duplicates()
    &&& forall|i: int| #[trigger] state.did.contains_key(i) <==> state.over.contains(i)
    &&& forall|k: int|
        0 <= k < state.over.len() ==> {
            &&& 0 <= #[trigger] state.over[k] < requests.len()
            &&& state.did[state.over[k]] == laws::outcome(
                requests[state.over[k]],
                after_all(report, in_order(requests, state.over.take(k))),
            )
        }
    &&& state.report == after_all(report, in_order(requests, state.over))
}

/// Whether every request is over.
pub open spec fn all_over<R>(state: Overlap<R>, requests: Seq<Sent<R>>) -> bool {
    forall|i: int| 0 <= i < requests.len() ==> #[trigger] state.did.contains_key(i)
}

/// Whoever holds the store has what is in it.
spec fn held_is_current<R>(state: Overlap<R>) -> bool {
    state.held matches Some((_, fetched)) ==> fetched == state.report
}

proof fn lemma_turn_is_serial<R>(
    state: Overlap<R>,
    report: Option<PostFileView<R>>,
    requests: Seq<Sent<R>>,
    who: int,
)
    requires
        serial(state, report, requests),
        held_is_current(state),
    ensures
        serial(turn(state, requests, who), report, requests),
        held_is_current(turn(state, requests, who)),
{
    let next = turn(state, requests, who);
    if next.over != state.over {
        assert(next.over == state.over.push(who));
        let before = in_order(requests, state.over);
        let after = in_order(requests, next.over);
        assert(after.drop_last() =~= before);
        assert(after.last() == requests[who]);
        assert(next.over.contains(who)) by {
            assert(next.over[state.over.len() as int] == who);
        }
        assert forall|i: int| #[trigger]
            next.did.contains_key(i) <==> next.over.contains(i) by {
            assert(next.did.contains_key(i) <==> i == who || state.did.contains_key(i));
            if state.over.contains(i) {
                let k = choose|k: int| 0 <= k < state.over.len() && state.over[k] == i;
                assert(next.over[k] == i);
            }
        }
        assert forall|k: int| 0 <= k < next.over.len() implies {
            &&& 0 <= #[trigger] next.over[k] < requests.len()
            &&& next.did[next.over[k]] == laws::outcome(
                requests[next.over[k]],
                after_all(report, in_order(requests, next.over.take(k))),
            )
        } by {
            if k < state.over.len() {
                assert(next.over[k] == state.over[k]);
                assert(state.over.contains(state.over[k]));
                assert(next.over.take(k) =~= state.over.take(k));
            } else {
                assert(next.over.take(k) =~= state.over);
            }
        }
    }
}

proof fn lemma_always_serial<R>(
    report: Option<PostFileView<R>>,
    requests: Seq<Sent<R>>,
    turns: Seq<int>,
)
    ensures
        serial(after_turns(report, requests, turns), report, requests),
        held_is_current(after_turns(report, requests, turns)),
    decreases turns.len(),
{
    if turns.len() > 0 {
        lemma_always_serial(report, requests, turns.drop_last());
        let before = after_turns(report, requests, turns.drop_last());
        lemma_turn_is_serial(before, report, requests, turns.last());
    }
}

/// Requests that overlap, however many they are, have at any time the effect and
/// the answers of those that are over, one after the other in the order in which
/// they came to their end.  Once all are over, that order holds each of them
/// once.
pub proof fn law_overlapping_requests_take_turns<R>(
    report: Option<PostFileView<R>>,
    requests: Seq<Sent<R>>,
    turns: Seq<int>,
)
    ensures
        serial(after_turns(report, requests, turns), report, requests),
        all_over(after_turns(report, requests, turns), requests) ==> after_turns(
            report,
            requests,
            turns,
        ).over.len() == requests.len(),
{
    lemma_always_serial(report, requests, turns);
    let end = after_turns(report, requests, turns);
    if all_over(end, requests) {
        assert forall|i: int| #[trigger] end.over.contains(i) <==> 0 <= i < requests.len() by {
            assert(end.did.contains_key(i) <==> end.over.contains(i));
        }
        assert(end.over.to_set() =~= vstd::set_lib::set_int_range(0, requests.len() as int));
        end.over.unique_seq_to_set();
        vstd::set_lib::lemma_int_range(0, requests.len() as int);
    }
}

/// A request that is over stays over, and what was done about it stays done: so
/// one that is over before another is taken up comes before it in the order.
pub proof fn law_order_is_that_of_time<R>(
    report: Option<PostFileView<R>>,
    requests: Seq<Sent<R>>,
    turns: Seq<int>,
    n: int,
)
    requires
        0 <= n <= turns.len(),
    ensures
        after_turns(report, requests, turns.take(n)).over.is_prefix_of(
            after_turns(report, requests, turns).over,
        ),
        after_turns(report, requests, turns.take(n)).did.submap_of(
            after_turns(report, requests, turns).did,
        ),
    decreases turns.len(),
{
    if n == turns.len() {
        assert(turns.take(n) =~= turns);
    } else {
        let before = turns.drop_last();
        assert(before.take(n) =~= turns.take(n));
        law_order_is_that_of_time(report, requests, before, n);
    }
}

/// Where no report was there, requests that overlap make a history of the
/// report: what holds of every history holds of them.
pub proof fn law_overlapping_requests_make_a_history<R>(requests: Seq<Sent<R>>, turns: Seq<int>)
    ensures
        after_turns(None, requests, turns).report == laws::history(
            in_order(requests, after_turns(None, requests, turns).over),
        ),
{
    lemma_always_serial(None, requests, turns);
    lemma_after_all_is_history(in_order(requests, after_turns(None, requests, turns).over));
}

proof fn lemma_after_all_is_history<R>(requests: Seq<Sent<R>>)
    ensures
        after_all(None, requests) == laws::history(requests),
    decreases requests.len(),
{
    if requests.len() > 0 {
        lemma_after_all_is_history(requests.drop_last());
    }
}

/// Of any number of overlapping starts at one time, where no report was there,
/// the first to come to its end creates the report, which is as that one says
/// and stays so.  Each other one that is over is told of the conflict if it is of
/// another run, and that the report was there if it is of the same.
pub proof fn law_one_of_the_starts_wins<R>(requests: Seq<Sent<R>>, turns: Seq<int>)
    requires
        forall|i: int| 0 <= i < requests.len() ==> (#[trigger] requests[i]).body.op is Start,
    ensures
        ({
            let end = after_turns(None, requests, turns);
            let winner = requests[end.over[0]];
            end.over.len() > 0 ==> {
                &&& answer(end.did[end.over[0]]) == Ok::<ReportResult, HttpFailureView>(
                    ReportResult { existed_already: false },
                )
                &&& winner.body.op matches ReportOp::Start { start_time, script } && end.report
                    == Some(report::started::<R>(winner.body.id, start_time, script, winner.now))
                &&& forall|k: int|
                    0 < k < end.over.len() ==> answer(end.did[#[trigger] end.over[k]])
                        == if requests[end.over[k]].body.id.uuid == winner.body.id.uuid {
                        Ok::<ReportResult, HttpFailureView>(ReportResult { existed_already: true })
                    } else {
                        Err(report::another_run())
                    }
            }
        }),
{
    lemma_always_serial(None, requests, turns);
    let end = after_turns(None, requests, turns);
    if end.over.len() > 0 {
        let order = in_order(requests, end.over);
        assert(end.over.take(0) =~= Seq::empty());
        assert forall|k: int| 0 < k <= end.over.len() implies #[trigger] after_all(
            None,
            in_order(requests, end.over.take(k)),
        ) == laws::kept(order[0], None) by {
            lemma_first_start_stays(order, k);
            assert(in_order(requests, end.over.take(k)) =~= order.take(k));
        }
        assert(end.over.take(end.over.len() as int) =~= end.over);
    }
}

/// After the first of several starts, the others leave the report as it is.
proof fn lemma_first_start_stays<R>(requests: Seq<Sent<R>>, n: int)
    requires
        0 < n <= requests.len(),
        forall|i: int| 0 <= i < requests.len() ==> (#[trigger] requests[i]).body.op is Start,
    ensures
        after_all(None, requests.take(n)) == laws::kept(requests[0], None),
    decreases n,
{
    assert(requests.take(n).drop_last() =~= requests.take(n - 1));
    if n > 1 {
        lemma_first_start_stays(requests, n - 1);
    } else {
        assert(after_all(None, requests.take(0)) == None::<PostFileView<R>>);
    }
}

} // verus!
