//! What holds of every request from its first step to its answer, whatever the
//! satellite, the store, the audit log and the clock say on the way.

use crate::error::{AppErrorView, NOT_FOUND, NO_CONTENT, OK};
use crate::ids::Uuid;
use crate::model;
use crate::model::{ExchangeView, Progress, Step};
use crate::request::{ActionView, EventView, Request, Response, Scope, StoreCallView, StoreReply};
use crate::time::Timestamp;
use vstd::prelude::*;

verus! {

/// What came of a step, and the time at which the next one was begun.
pub ghost struct Turn {
    pub event: EventView,
    pub now: Timestamp,
}

/// A request that was begun at `begun`, after `turns`.
pub open spec fn after(request: Request, begun: Timestamp, turns: Seq<Turn>) -> ExchangeView
    decreases turns.len(),
{
    if turns.len() == 0 {
        model::started(request, begun)
    } else {
        model::resumed(
            after(request, begun, turns.drop_last()),
            turns.last().event,
            turns.last().now,
        )
    }
}

/// Whether each of `turns` can come of what is being done for the request by
/// then.
pub open spec fn is_run(request: Request, begun: Timestamp, turns: Seq<Turn>) -> bool {
    forall|i: int|
        0 <= i < turns.len() ==> model::answers(
            after(request, begun, #[trigger] turns.take(i)),
            turns[i].event,
        )
}

/// What is to be done for the request after the first `i` turns.
pub open spec fn action_after(
    request: Request,
    begun: Timestamp,
    turns: Seq<Turn>,
    i: int,
) -> ActionView {
    model::action(after(request, begun, turns.take(i)))
}

/// When the step after the first `i` turns was begun.
pub open spec fn begun_at(begun: Timestamp, turns: Seq<Turn>, i: int) -> Timestamp {
    if i == 0 {
        begun
    } else {
        turns[i - 1].now
    }
}

/// The number of the step at which the store does what the request asks for.
pub open spec fn call_position(request: Request) -> int {
    model::parties(request).len() + if model::is_edit(request) {
        2int
    } else {
        0int
    }
}

/// What the store has replied to that in `turns`.
pub open spec fn reply_in(request: Request, turns: Seq<Turn>) -> Option<StoreReply> {
    if call_position(request) < turns.len() {
        Some(turns[call_position(request)].event->Replied_0)
    } else {
        None
    }
}

/// Whether an event says that something was found.
pub open spec fn finds_something(event: EventView) -> bool {
    event matches EventView::Replied(reply) && !model::finds_nothing(reply)
}

/// How far the request has come after `turns`, in closed form.
pub open spec fn progress_after(request: Request, begun: Timestamp, turns: Seq<Turn>) -> Progress {
    let n = turns.len();
    if n > 0 && !model::is_success(model::plan(request)[n - 1], turns.last().event) {
        Progress::Finished {
            outcome: Err(model::failure(request, model::plan(request)[n - 1], turns.last().event)),
        }
    } else if n == model::plan(request).len() {
        Progress::Finished { outcome: model::conclusion(request, reply_in(request, turns)->0) }
    } else {
        Progress::AtStep {
            position: n,
            issued_at: begun_at(begun, turns, n as int),
            reply: reply_in(request, turns),
        }
    }
}

/// The steps of a plan by number.
pub(crate) proof fn lemma_plan(request: Request)
    ensures
        model::plan(request).len() == model::parties(request).len() + model::work(request).len(),
        model::plan(request).len() == call_position(request) + if model::is_edit(request) {
            3int
        } else {
            1int
        },
        forall|i: int|
            0 <= i < model::parties(request).len() ==> #[trigger] model::plan(request)[i]
                == (Step::ValidateParty { party: model::parties(request)[i] }),
        forall|i: int|
            model::parties(request).len() <= i < model::plan(request).len()
                ==> #[trigger] model::plan(request)[i] == model::work(request)[i
                - model::parties(request).len()],
        forall|i: int|
            0 <= i < model::plan(request).len() ==> (#[trigger] model::plan(request)[i] is Call
                <==> i == call_position(request)),
        0 <= call_position(request) < model::plan(request).len(),
{
}

/// The beginning of a run is a run.
pub(crate) proof fn lemma_prefix(request: Request, begun: Timestamp, turns: Seq<Turn>, k: int)
    requires
        is_run(request, begun, turns),
        0 <= k <= turns.len(),
    ensures
        is_run(request, begun, turns.take(k)),
{
    assert forall|i: int| 0 <= i < turns.take(k).len() implies model::answers(
        after(request, begun, #[trigger] turns.take(k).take(i)),
        turns.take(k)[i].event,
    ) by {
        assert(turns.take(k).take(i) =~= turns.take(i));
    }
}

/// Where a run stands: it is no longer than the plan, each turn answers the
/// step of its number, every turn but the last is a success, and the state is
/// the one in closed form.
pub(crate) proof fn lemma_run(request: Request, begun: Timestamp, turns: Seq<Turn>)
    requires
        is_run(request, begun, turns),
    ensures
        turns.len() <= model::plan(request).len(),
        forall|i: int|
            0 <= i < turns.len() ==> model::answers_step(
                request,
                model::plan(request)[i],
                (#[trigger] turns[i]).event,
            ),
        forall|i: int|
            0 <= i < turns.len() - 1 ==> model::is_success(
                model::plan(request)[i],
                (#[trigger] turns[i]).event,
            ),
        after(request, begun, turns).request == request,
        after(request, begun, turns).progress == progress_after(request, begun, turns),
    decreases turns.len(),
{
    lemma_plan(request);
    if turns.len() > 0 {
        let n = turns.len();
        let before = turns.drop_last();
        assert(turns.take(n - 1) =~= before);
        lemma_prefix(request, begun, turns, n - 1);
        lemma_run(request, begun, before);
        assert(model::answers(after(request, begun, turns.take(n - 1)), turns[n - 1].event));
        assert forall|i: int| 0 <= i < turns.len() - 1 implies model::is_success(
            model::plan(request)[i],
            (#[trigger] turns[i]).event,
        ) by {
            assert(before[i] == turns[i]);
            if i == before.len() - 1 {
                assert(before.last() == turns[i]);
            }
        }
        assert forall|i: int| 0 <= i < turns.len() implies model::answers_step(
            request,
            model::plan(request)[i],
            (#[trigger] turns[i]).event,
        ) by {
            if i < n - 1 {
                assert(before[i] == turns[i]);
            }
        }
    }
}

/// What is to be done after the first `i` turns of a run.
pub(crate) proof fn lemma_action_after(request: Request, begun: Timestamp, turns: Seq<Turn>, i: int)
    requires
        is_run(request, begun, turns),
        0 <= i <= turns.len(),
    ensures
        i < turns.len() ==> !(action_after(request, begun, turns, i) is Respond),
        action_after(request, begun, turns, i) is Respond || i < model::plan(request).len(),
        action_after(request, begun, turns, i) is Respond || action_after(request, begun, turns, i)
            == match model::plan(request)[i] {
            Step::ValidateParty { party } => ActionView::ValidateParty {
                now: begun_at(begun, turns, i),
                party,
            },
            Step::Begin => ActionView::Begin,
            Step::LookUp => ActionView::Call {
                scope: Scope::Transaction,
                call: model::look_up(request),
            },
            Step::Call => ActionView::Call {
                scope: model::scope(request),
                call: model::store_call(request, begun_at(begun, turns, i)),
            },
            Step::Log => ActionView::LogEvent {
                entry: model::audit_entry(
                    request,
                    turns[call_position(request)].event->Replied_0,
                    begun_at(begun, turns, i),
                ),
            },
            Step::Commit => ActionView::Commit,
        },
{
    lemma_plan(request);
    lemma_run(request, begun, turns);
    lemma_prefix(request, begun, turns, i);
    lemma_run(request, begun, turns.take(i));
    if i > 0 {
        assert(turns.take(i).last() == turns[i - 1]);
    }
    if call_position(request) < i {
        assert(turns.take(i)[call_position(request)] == turns[call_position(request)]);
    }
}

/// Nothing else is done for a request before every one of its parties has been
/// found valid, in the order in which the request names them.
pub proof fn law_parties_are_validated_first(
    request: Request,
    begun: Timestamp,
    turns: Seq<Turn>,
    i: int,
)
    requires
        is_run(request, begun, turns),
        0 <= i <= turns.len(),
        !(action_after(request, begun, turns, i) is ValidateParty),
        !(action_after(request, begun, turns, i) is Respond),
    ensures
        model::parties(request).len() <= i,
        forall|k: int|
            #![trigger turns[k]]
            0 <= k < model::parties(request).len() ==> turns[k].event is Done && action_after(
                request,
                begun,
                turns,
                k,
            ) == (ActionView::ValidateParty {
                now: begun_at(begun, turns, k),
                party: model::parties(request)[k],
            }),
{
    lemma_plan(request);
    lemma_run(request, begun, turns);
    lemma_action_after(request, begun, turns, i);
    assert(model::parties(request).len() <= i);
    assert forall|k: int|
        #![trigger turns[k]]
        0 <= k < model::parties(request).len() implies turns[k].event is Done && action_after(
        request,
        begun,
        turns,
        k,
    ) == (ActionView::ValidateParty {
        now: begun_at(begun, turns, k),
        party: model::parties(request)[k],
    }) by {
        lemma_action_after(request, begun, turns, k);
        assert(model::plan(request)[k] is ValidateParty);
        lemma_prefix(request, begun, turns, i);
        lemma_run(request, begun, turns.take(i));
        assert(turns.take(i)[k] == turns[k]);
        if k == i - 1 {
            assert(turns.take(i).last() == turns[k]);
        }
    }
}

/// A party that is not valid ends its request: the client is told which party
/// it was, and nothing but validation has been done.
pub proof fn law_rejected_party_ends_the_request(
    request: Request,
    begun: Timestamp,
    turns: Seq<Turn>,
    k: int,
    cause: Seq<char>,
)
    requires
        is_run(request, begun, turns),
        0 <= k < turns.len(),
        k < model::parties(request).len(),
        turns[k].event == EventView::Failed(cause),
    ensures
        turns.len() == k + 1,
        after(request, begun, turns).progress == (Progress::Finished {
            outcome: Err(model::party_rejected(model::parties(request)[k], cause)),
        }),
        forall|i: int|
            0 <= i <= k ==> (#[trigger] action_after(request, begun, turns, i)) is ValidateParty,
{
    lemma_plan(request);
    lemma_run(request, begun, turns);
    assert(model::plan(request)[k] == (Step::ValidateParty { party: model::parties(request)[k] }));
    assert forall|i: int| 0 <= i <= k implies (#[trigger] action_after(
        request,
        begun,
        turns,
        i,
    )) is ValidateParty by {
        lemma_action_after(request, begun, turns, i);
        assert(model::plan(request)[i] is ValidateParty);
    }
}

/// A request succeeds only when every step of its plan has succeeded; and when
/// they all have, it is answered with the conclusion from what the store
/// replied.
pub proof fn law_success_takes_every_step(request: Request, begun: Timestamp, turns: Seq<Turn>)
    requires
        is_run(request, begun, turns),
    ensures
        after(request, begun, turns).progress matches Progress::Finished { outcome: Ok(_) }
            ==> turns.len() == model::plan(request).len() && forall|i: int|
            0 <= i < turns.len() ==> model::is_success(
                model::plan(request)[i],
                (#[trigger] turns[i]).event,
            ),
        turns.len() == model::plan(request).len() && model::is_success(
            model::plan(request).last(),
            turns.last().event,
        ) ==> after(request, begun, turns).progress == (Progress::Finished {
            outcome: model::conclusion(
                request,
                turns[call_position(request)].event->Replied_0,
            ),
        }),
{
    lemma_plan(request);
    lemma_run(request, begun, turns);
}

/// What is edited with success was found, edited, recorded in the audit log and
/// committed, in this order, and the log entry describes the edit.
pub proof fn law_successful_edits_are_audited(
    request: Request,
    begun: Timestamp,
    turns: Seq<Turn>,
    response: Response,
)
    requires
        is_run(request, begun, turns),
        model::is_edit(request),
        after(request, begun, turns).progress == (Progress::Finished { outcome: Ok(response) }),
    ensures
        ({
            let n = model::parties(request).len() as int;
            let c = call_position(request);
            let reply = turns[c].event->Replied_0;
            &&& turns.len() == c + 3
            &&& action_after(request, begun, turns, n) is Begin
            &&& turns[n].event is Done
            &&& action_after(request, begun, turns, n + 1) == (ActionView::Call {
                scope: Scope::Transaction,
                call: model::look_up(request),
            })
            &&& finds_something(turns[n + 1].event)
            &&& action_after(request, begun, turns, c) == (ActionView::Call {
                scope: model::scope(request),
                call: model::store_call(request, turns[c - 1].now),
            })
            &&& turns[c].event is Replied
            &&& action_after(request, begun, turns, c + 1) == (ActionView::LogEvent {
                entry: model::audit_entry(request, reply, turns[c].now),
            })
            &&& turns[c + 1].event is Done
            &&& action_after(request, begun, turns, c + 2) is Commit
            &&& turns[c + 2].event is Done
            &&& model::conclusion(request, reply) == Ok::<Response, AppErrorView>(response)
        }),
{
    lemma_plan(request);
    lemma_run(request, begun, turns);
    let n = model::parties(request).len() as int;
    let plan = model::plan(request);
    let c = call_position(request);
    assert(plan[n] is Begin && plan[c] is Call && plan[c + 1] is Log && plan[c + 2] is Commit);
    assert(plan[n + 1] is LookUp);
    lemma_action_after(request, begun, turns, n);
    lemma_action_after(request, begun, turns, n + 1);
    lemma_action_after(request, begun, turns, c);
    lemma_action_after(request, begun, turns, c + 1);
    lemma_action_after(request, begun, turns, c + 2);
    assert(model::answers_step(request, plan[n], turns[n].event));
    assert(model::answers_step(request, plan[n + 1], turns[n + 1].event));
    assert(model::answers_step(request, plan[c], turns[c].event));
    assert(model::answers_step(request, plan[c + 1], turns[c + 1].event));
    assert(model::answers_step(request, plan[c + 2], turns[c + 2].event));
}

/// Whether the transaction of a request was committed.
pub open spec fn is_committed(request: Request, begun: Timestamp, turns: Seq<Turn>) -> bool {
    exists|j: int|
        0 <= j < turns.len() && (#[trigger] action_after(request, begun, turns, j)) is Commit
            && turns[j].event is Done
}

/// Whether an action asks the store for a change.
pub open spec fn is_change(action: ActionView) -> bool {
    action matches ActionView::Call { scope, call } && !model::only_reads(call)
}

/// Whether a request has changed the store for good: the store made the change
/// that it was asked for, and that was on the connection, or the transaction
/// was committed.
pub open spec fn has_lasting_effect(request: Request, begun: Timestamp, turns: Seq<Turn>) -> bool {
    exists|i: int|
        0 <= i < turns.len() && is_change(#[trigger] action_after(request, begun, turns, i))
            && turns[i].event is Replied && (action_after(request, begun, turns, i)->scope
            == Scope::Connection || is_committed(request, begun, turns))
}

/// The step at which the store is asked for a change is the one with the call
/// for the request.
proof fn lemma_change(request: Request, begun: Timestamp, turns: Seq<Turn>, i: int)
    requires
        is_run(request, begun, turns),
        0 <= i <= turns.len(),
        is_change(action_after(request, begun, turns, i)),
    ensures
        i == call_position(request),
        !model::is_read(request),
        action_after(request, begun, turns, i)->scope == model::scope(request),
{
    lemma_plan(request);
    lemma_action_after(request, begun, turns, i);
}

/// The step at which the transaction is committed is the last one.
proof fn lemma_commit(request: Request, begun: Timestamp, turns: Seq<Turn>, j: int)
    requires
        is_run(request, begun, turns),
        0 <= j < turns.len(),
        action_after(request, begun, turns, j) is Commit,
    ensures
        model::is_edit(request),
        j == model::plan(request).len() - 1,
        turns.len() == j + 1,
{
    lemma_plan(request);
    lemma_run(request, begun, turns);
    lemma_action_after(request, begun, turns, j);
    assert(model::plan(request)[j] is Commit);
}

/// An edit that is answered with an error is not committed, so that it leaves
/// nothing in the audit log.
pub proof fn law_failed_edits_are_not_recorded(
    request: Request,
    begun: Timestamp,
    turns: Seq<Turn>,
    error: AppErrorView,
)
    requires
        is_run(request, begun, turns),
        model::is_edit(request),
        after(request, begun, turns).progress == (Progress::Finished { outcome: Err(error) }),
    ensures
        !is_committed(request, begun, turns),
{
    lemma_plan(request);
    lemma_run(request, begun, turns);
    if is_committed(request, begun, turns) {
        let j = choose|j: int|
            0 <= j < turns.len() && (#[trigger] action_after(request, begun, turns, j)) is Commit
                && turns[j].event is Done;
        lemma_commit(request, begun, turns, j);
        let c = call_position(request);
        assert(model::answers_step(request, model::plan(request)[c], turns[c].event));
        assert(model::is_success(model::plan(request)[c], turns[c].event));
    }
}

/// A request that is answered with an error has changed nothing for good. A
/// replacement of a policy is not done in the transaction in which it is
/// recorded, so this holds of it where it fails before it is recorded.
pub proof fn law_failed_requests_have_no_lasting_effect(
    request: Request,
    begun: Timestamp,
    turns: Seq<Turn>,
    error: AppErrorView,
)
    requires
        is_run(request, begun, turns),
        request is ReplacePolicyInPolicySet ==> turns.len() <= call_position(request) + 1,
        after(request, begun, turns).progress == (Progress::Finished { outcome: Err(error) }),
    ensures
        !has_lasting_effect(request, begun, turns),
{
    lemma_plan(request);
    lemma_run(request, begun, turns);
    if model::is_edit(request) {
        law_failed_edits_are_not_recorded(request, begun, turns, error);
    }
    if has_lasting_effect(request, begun, turns) {
        let i = choose|i: int|
            0 <= i < turns.len() && is_change(#[trigger] action_after(request, begun, turns, i))
                && turns[i].event is Replied && (action_after(request, begun, turns, i)->scope
                == Scope::Connection || is_committed(request, begun, turns));
        lemma_change(request, begun, turns, i);
        assert(model::answers_step(request, model::plan(request)[i], turns[i].event));
        if model::scope(request) == Scope::Connection {
            assert(turns.len() == i + 1);
            assert(turns.last() == turns[i]);
        }
    }
}

/// A replacement that the store has made lasts, even where it could not be
/// recorded and the client is told of an error.
pub proof fn law_replacements_outlast_a_failed_record(
    request: Request,
    begun: Timestamp,
    turns: Seq<Turn>,
)
    requires
        is_run(request, begun, turns),
        request is ReplacePolicyInPolicySet,
        turns.len() > call_position(request) + 1,
    ensures
        has_lasting_effect(request, begun, turns),
{
    lemma_plan(request);
    lemma_run(request, begun, turns);
    let c = call_position(request);
    lemma_action_after(request, begun, turns, c);
    assert(model::plan(request)[c] is Call);
    assert(model::answers_step(request, model::plan(request)[c], turns[c].event));
    assert(model::is_success(model::plan(request)[c], turns[c].event));
    assert(is_change(action_after(request, begun, turns, c)));
}

/// A request that is meant to change something and succeeds has changed the
/// store for good.
pub proof fn law_successful_changes_last(
    request: Request,
    begun: Timestamp,
    turns: Seq<Turn>,
    response: Response,
)
    requires
        is_run(request, begun, turns),
        !model::is_read(request),
        after(request, begun, turns).progress == (Progress::Finished { outcome: Ok(response) }),
    ensures
        has_lasting_effect(request, begun, turns),
{
    lemma_plan(request);
    lemma_run(request, begun, turns);
    let c = call_position(request);
    lemma_action_after(request, begun, turns, c);
    assert(model::plan(request)[c] is Call);
    assert(model::answers_step(request, model::plan(request)[c], turns[c].event));
    assert(is_change(action_after(request, begun, turns, c)) && turns[c].event is Replied);
    if model::is_edit(request) {
        let j = model::plan(request).len() - 1;
        lemma_action_after(request, begun, turns, j);
        assert(model::plan(request)[j] is Commit);
        assert(model::answers_step(request, model::plan(request)[j], turns[j].event));
        assert(action_after(request, begun, turns, j) is Commit && turns[j].event is Done);
    }
}

/// What is not there is not edited: the client is told so, the store is not
/// asked to change anything, and nothing is logged or committed.
pub proof fn law_what_is_missing_is_not_edited(
    request: Request,
    begun: Timestamp,
    turns: Seq<Turn>,
    k: int,
    reply: StoreReply,
)
    requires
        is_run(request, begun, turns),
        model::is_edit(request),
        0 <= k < turns.len(),
        turns[k].event == EventView::Replied(reply),
        model::finds_nothing(reply),
    ensures
        turns.len() == k + 1,
        action_after(request, begun, turns, k) == (ActionView::Call {
            scope: Scope::Transaction,
            call: model::look_up(request),
        }),
        after(request, begun, turns).progress == (Progress::Finished {
            outcome: Err(model::nothing_to_edit(request)),
        }),
        model::nothing_to_edit(request)->status_code == NOT_FOUND,
        forall|i: int|
            0 <= i <= turns.len() ==> {
                let action = #[trigger] action_after(request, begun, turns, i);
                !is_change(action) && !(action is LogEvent) && !(action is Commit)
            },
{
    let plan = model::plan(request);
    lemma_plan(request);
    lemma_run(request, begun, turns);
    assert(model::answers_step(request, plan[k], turns[k].event));
    assert(plan[k] is LookUp && k == call_position(request) - 1);
    lemma_action_after(request, begun, turns, k);
    assert(turns.last() == turns[k]);
    assert(turns.take(turns.len() as int) =~= turns);
    assert forall|i: int| 0 <= i <= turns.len() implies {
        let action = #[trigger] action_after(request, begun, turns, i);
        !is_change(action) && !(action is LogEvent) && !(action is Commit)
    } by {
        lemma_action_after(request, begun, turns, i);
        if is_change(action_after(request, begun, turns, i)) {
            lemma_change(request, begun, turns, i);
        }
    }
}

/// Before the store is asked for an edit, what is to be edited was found.
pub proof fn law_what_is_edited_was_found(
    request: Request,
    begun: Timestamp,
    turns: Seq<Turn>,
    i: int,
)
    requires
        is_run(request, begun, turns),
        model::is_edit(request),
        0 <= i <= turns.len(),
        is_change(action_after(request, begun, turns, i)),
    ensures
        i == model::parties(request).len() + 2,
        action_after(request, begun, turns, i - 2) is Begin,
        action_after(request, begun, turns, i - 1) == (ActionView::Call {
            scope: Scope::Transaction,
            call: model::look_up(request),
        }),
        finds_something(turns[i - 1].event),
{
    let plan = model::plan(request);
    lemma_plan(request);
    lemma_run(request, begun, turns);
    lemma_change(request, begun, turns, i);
    assert(plan[i - 2] is Begin && plan[i - 1] is LookUp);
    lemma_action_after(request, begun, turns, i - 2);
    lemma_action_after(request, begun, turns, i - 1);
    assert(model::answers_step(request, plan[i - 1], turns[i - 1].event));
    lemma_prefix(request, begun, turns, i);
    lemma_run(request, begun, turns.take(i));
    lemma_action_after(request, begun, turns, i);
    assert(turns.take(i).last() == turns[i - 1]);
    assert(model::is_success(plan[i - 1], turns[i - 1].event));
}

/// Whether what came of an action is true where `policy_sets` are the policy
/// sets that there are: one is found if and only if it is there.
pub open spec fn is_truthful(
    policy_sets: Set<Uuid>,
    action: ActionView,
    event: EventView,
) -> bool {
    match (action, event) {
        (
            ActionView::Call { scope, call: StoreCallView::GetPolicySetWithPolicies { id } },
            EventView::Replied(StoreReply::FoundPolicySet(found)),
        ) => found is Some <==> policy_sets.contains(id),
        _ => true,
    }
}

/// The policy sets that there are after a request to delete one: all but that
/// one, if the request has changed the store for good.
pub open spec fn after_deletion(
    policy_sets: Set<Uuid>,
    id: Uuid,
    begun: Timestamp,
    turns: Seq<Turn>,
) -> Set<Uuid> {
    if has_lasting_effect(Request::DeletePolicySet { id }, begun, turns) {
        policy_sets.remove(id)
    } else {
        policy_sets
    }
}

/// A policy set that was deleted cannot be deleted again: with a store that
/// tells the truth, the second request never succeeds, asks for no change and
/// logs nothing; and where the store replied to its look-up, the client is told
/// that there is no such policy set.
pub proof fn law_a_deleted_policy_set_is_not_found(
    id: Uuid,
    policy_sets: Set<Uuid>,
    begun: Timestamp,
    turns: Seq<Turn>,
    response: Response,
    again_begun: Timestamp,
    again: Seq<Turn>,
)
    requires
        is_run(Request::DeletePolicySet { id }, begun, turns),
        after(Request::DeletePolicySet { id }, begun, turns).progress == (Progress::Finished {
            outcome: Ok(response),
        }),
        is_run(Request::DeletePolicySet { id }, again_begun, again),
        forall|i: int|
            0 <= i < again.len() ==> is_truthful(
                after_deletion(policy_sets, id, begun, turns),
                action_after(Request::DeletePolicySet { id }, again_begun, again, i),
                (#[trigger] again[i]).event,
            ),
    ensures
        ({
            let request = Request::DeletePolicySet { id };
            let progress = after(request, again_begun, again).progress;
            &&& progress is Finished ==> progress->outcome is Err
            &&& 2 <= again.len() && again[1].event is Replied ==> progress == (
            Progress::Finished { outcome: Err(model::policy_set_to_edit_not_found(id)) })
            &&& forall|i: int|
                0 <= i <= again.len() ==> {
                    let action = #[trigger] action_after(request, again_begun, again, i);
                    !is_change(action) && !(action is LogEvent) && !(action is Commit)
                }
        }),
{
    let request = Request::DeletePolicySet { id };
    let plan = model::plan(request);
    law_successful_changes_last(request, begun, turns, response);
    lemma_plan(request);
    lemma_run(request, again_begun, again);
    assert(plan[0] is Begin && plan[1] is LookUp);
    assert(again.take(again.len() as int) =~= again);
    if again.len() >= 2 {
        lemma_action_after(request, again_begun, again, 1);
        assert(model::answers_step(request, plan[1], again[1].event));
        assert(!finds_something(again[1].event));
        assert(!model::is_success(plan[1], again[1].event));
        assert(again.len() == 2);
        assert(again.last() == again[1]);
    }
    assert forall|i: int| 0 <= i <= again.len() implies {
        let action = #[trigger] action_after(request, again_begun, again, i);
        !is_change(action) && !(action is LogEvent) && !(action is Commit)
    } by {
        lemma_action_after(request, again_begun, again, i);
    }
}

/// A request that only looks something up asks the store once, and does nothing
/// else.
pub proof fn law_reads_only_ask_the_store(
    request: Request,
    begun: Timestamp,
    turns: Seq<Turn>,
    i: int,
)
    requires
        is_run(request, begun, turns),
        model::is_read(request),
        0 <= i <= turns.len(),
    ensures
        action_after(request, begun, turns, i) == if i == 0 {
            ActionView::Call {
                scope: Scope::Connection,
                call: model::store_call(request, begun),
            }
        } else {
            ActionView::Respond
        },
{
    lemma_plan(request);
    lemma_run(request, begun, turns);
    lemma_action_after(request, begun, turns, i);
    assert(turns.take(0) =~= Seq::<Turn>::empty());
}

/// The store is called at most once for a request, except that what is to be
/// edited is looked up before.
pub proof fn law_the_store_is_called_once(
    request: Request,
    begun: Timestamp,
    turns: Seq<Turn>,
    i: int,
    j: int,
)
    requires
        is_run(request, begun, turns),
        0 <= i < j <= turns.len(),
        action_after(request, begun, turns, i) is Call,
        action_after(request, begun, turns, j) is Call,
    ensures
        model::is_edit(request),
        action_after(request, begun, turns, i)->call == model::look_up(request),
        action_after(request, begun, turns, j)->call == model::store_call(
            request,
            begun_at(begun, turns, j),
        ),
{
    lemma_plan(request);
    lemma_action_after(request, begun, turns, i);
    lemma_action_after(request, begun, turns, j);
}

/// A request is answered after at most one turn for each of its parties and
/// five more, or one more where it is not an edit; and once it can be answered,
/// nothing more is done for it.
pub proof fn law_every_request_is_answered(
    request: Request,
    begun: Timestamp,
    turns: Seq<Turn>,
    event: EventView,
)
    requires
        is_run(request, begun, turns),
    ensures
        turns.len() <= model::parties(request).len() + if model::is_edit(request) {
            5int
        } else {
            1int
        },
        turns.len() == model::plan(request).len() ==> after(
            request,
            begun,
            turns,
        ).progress is Finished,
        after(request, begun, turns).progress is Finished ==> !model::answers(
            after(request, begun, turns),
            event,
        ),
{
    lemma_plan(request);
    lemma_run(request, begun, turns);
}

/// An error that the store gives is the answer, as it is, and nothing is logged
/// or committed.
pub proof fn law_store_errors_pass_through(
    request: Request,
    begun: Timestamp,
    turns: Seq<Turn>,
    k: int,
    error: AppErrorView,
)
    requires
        is_run(request, begun, turns),
        0 <= k < turns.len(),
        turns[k].event == EventView::Refused(error),
    ensures
        turns.len() == k + 1,
        after(request, begun, turns).progress == (Progress::Finished { outcome: Err(error) }),
        forall|i: int|
            0 <= i <= turns.len() ==> {
                let action = #[trigger] action_after(request, begun, turns, i);
                !(action is LogEvent) && !(action is Commit)
            },
{
    lemma_plan(request);
    lemma_run(request, begun, turns);
    let plan = model::plan(request);
    assert(model::answers_step(request, plan[k], turns[k].event));
    assert(turns.take(turns.len() as int) =~= turns);
    assert forall|i: int| 0 <= i <= turns.len() implies {
        let action = #[trigger] action_after(request, begun, turns, i);
        !(action is LogEvent) && !(action is Commit)
    } by {
        lemma_action_after(request, begun, turns, i);
        if i < turns.len() {
            assert(k <= call_position(request));
        }
    }
}

/// The clock has no say in how a request is answered: two runs with the same
/// events come to the same answer.
pub proof fn law_the_answer_does_not_depend_on_the_clock(
    request: Request,
    begun: Timestamp,
    turns: Seq<Turn>,
    other_begun: Timestamp,
    other_turns: Seq<Turn>,
    outcome: Result<Response, AppErrorView>,
)
    requires
        is_run(request, begun, turns),
        is_run(request, other_begun, other_turns),
        turns.len() == other_turns.len(),
        forall|i: int|
            0 <= i < turns.len() ==> (#[trigger] turns[i]).event == other_turns[i].event,
        after(request, begun, turns).progress == (Progress::Finished { outcome }),
    ensures
        after(request, other_begun, other_turns).progress == (Progress::Finished { outcome }),
{
    lemma_plan(request);
    lemma_run(request, begun, turns);
    lemma_run(request, other_begun, other_turns);
    assert(turns[turns.len() - 1].event == other_turns.last().event);
    if call_position(request) < turns.len() {
        assert(turns[call_position(request)].event == other_turns[call_position(request)].event);
    }
}

/// A success has the status 204 where a policy set or one of its policies was
/// deleted, and the status 200 otherwise.
pub proof fn law_status_of_a_success(
    request: Request,
    begun: Timestamp,
    turns: Seq<Turn>,
    response: Response,
)
    requires
        is_run(request, begun, turns),
        after(request, begun, turns).progress == (Progress::Finished { outcome: Ok(response) }),
    ensures
        response.status == if request is DeletePolicySet || request is DeletePolicyFromPolicySet {
            NO_CONTENT
        } else {
            OK
        },
{
    lemma_plan(request);
    lemma_run(request, begun, turns);
    let c = call_position(request);
    assert(model::answers_step(request, model::plan(request)[c], turns[c].event));
}

/// What is looked up and not found is answered with the error for that: a
/// policy with one that names it and its policy set, a policy set with one that
/// says no more.
pub proof fn law_what_is_missing_is_not_found(request: Request, begun: Timestamp, turn: Turn)
    requires
        is_run(request, begun, seq![turn]),
        turn.event == EventView::Replied(StoreReply::FoundPolicy(None)) || turn.event
            == EventView::Replied(StoreReply::FoundPolicySet(None)),
    ensures
        after(request, begun, seq![turn]).progress == (Progress::Finished {
            outcome: match request {
                Request::GetPolicy { policy_set_id, policy_id } => Err(
                    model::policy_not_found(policy_set_id, policy_id),
                ),
                _ => Err(model::policy_set_not_found()),
            },
        }),
{
    lemma_plan(request);
    let turns = seq![turn];
    lemma_run(request, begun, turns);
    assert(model::answers_step(request, model::plan(request)[0], turns[0].event));
}

} // verus!
