//! What each administration endpoint promises, from what the client sent to
//! what the registry does about it and what the client gets.
//!
//! Each promise is about every run of a request to one endpoint, and speaks of
//! the parts of that request and of what came of the steps before.

use crate::audit::{AuditEntryView, EditedType, EventType};
use crate::error::AppErrorView;
use crate::ids::Uuid;
use crate::laws;
use crate::laws::Turn;
use crate::model;
use crate::model::Progress;
use crate::policy::{
    GetPolicySetsQuery, InsertPolicySetTemplate, InsertPolicySetWithPolicies, Policy, PolicyModel,
    TemplatePolicy,
};
use crate::request::{
    ActionView, EventView, InsertPolicySetResponse, InsertPolicySetTemplateResponse, Request,
    Response, ResponseBody, Scope, StoreCallView, StoreReply,
};
use crate::time::Timestamp;
use vstd::prelude::*;

verus! {

/// What an edit consists of.
pub ghost struct Edit {
    /// Who has to be a valid party, in this order.
    pub providers: Seq<Seq<char>>,
    /// How the store is asked for what is to be edited.
    pub look_up: StoreCallView,
    /// What the client is told where it is not there.
    pub missing: AppErrorView,
    pub scope: Scope,
    pub change: StoreCallView,
    /// What the audit log says of it, and of which policy set.
    pub recorded: EventType,
    pub policy_set_id: Uuid,
    /// What is said to have failed where no transaction could be opened, and
    /// where the entry could not be logged.
    pub starting: Seq<char>,
    pub logging: Seq<char>,
    /// What the client gets.
    pub response: Response,
}

/// What a request that is not an edit consists of.
pub ghost struct Errand {
    /// Who has to be a valid party, in this order.
    pub providers: Seq<Seq<char>>,
    /// How the store is asked.
    pub call: StoreCallView,
    /// What the client gets.
    pub outcome: Result<Response, AppErrorView>,
}

/// The service providers of a policy, as they are named in it.
pub open spec fn providers_of(policy: Policy) -> Seq<Seq<char>> {
    Seq::new(
        policy.target.environment.service_providers@.len(),
        |k: int| policy.target.environment.service_providers@[k]@,
    )
}

/// The answer where a service provider is not a valid party.
pub open spec fn not_a_party(party: Seq<char>, cause: Seq<char>) -> AppErrorView {
    AppErrorView::Expected {
        status_code: 400,
        message: "Unable to verify service provider '"@ + party + "' as valid iSHARE party"@,
        reason: cause,
        metadata: None,
    }
}

/// An answer where something is not there.
pub open spec fn not_there(message: Seq<char>, reason: Seq<char>) -> AppErrorView {
    AppErrorView::Expected { status_code: 404, message, reason, metadata: None }
}

/// How a policy that is not there is named.
pub open spec fn names_policy(policy_set_id: Uuid, policy_id: Uuid) -> Seq<char> {
    "Unable to find policy with id '"@ + crate::ids::uuid_text(policy_id)
        + "' and policy set id '"@ + crate::ids::uuid_text(policy_set_id)
}

/// How a policy set that is not there is named.
pub open spec fn names_policy_set(policy_set_id: Uuid) -> Seq<char> {
    "Unable to find policy set with id '"@ + crate::ids::uuid_text(policy_set_id) + "'"@
}

/// What came of the step with a number.
pub open spec fn event_at(turns: Seq<Turn>, i: nat) -> EventView {
    turns[i as int].event
}

/// The policy that the store says it has written for a client who sent `body`:
/// the service providers are validated, the transaction is opened and what is to
/// be edited is looked up before.
pub open spec fn written(body: Policy, turns: Seq<Turn>) -> PolicyModel {
    event_at(
        turns,
        body.target.environment.service_providers@.len() + 2,
    )->Replied_0->Written_0
}

/// Whether an event lets a request go on.
pub open spec fn goes_well(event: EventView) -> bool {
    match event {
        EventView::Done => true,
        EventView::Replied(StoreReply::FoundPolicy(None)) => false,
        EventView::Replied(StoreReply::FoundPolicySet(None)) => false,
        EventView::Replied(_) => true,
        _ => false,
    }
}

/// What is done for an edit at the step with a number, which is begun at `now`.
pub open spec fn edit_action(edit: Edit, now: Timestamp, i: int) -> ActionView {
    let n = edit.providers.len() as int;
    if i < n {
        ActionView::ValidateParty { now, party: edit.providers[i] }
    } else if i == n {
        ActionView::Begin
    } else if i == n + 1 {
        ActionView::Call { scope: Scope::Transaction, call: edit.look_up }
    } else if i == n + 2 {
        ActionView::Call { scope: edit.scope, call: edit.change }
    } else if i == n + 3 {
        ActionView::LogEvent {
            entry: AuditEntryView {
                time: now,
                source: crate::ids::uuid_text(edit.policy_set_id),
                event_type: edit.recorded,
                data: None,
                context: None,
            },
        }
    } else {
        ActionView::Commit
    }
}

/// What the client is told where an edit ends with an event at the step with a
/// number.
pub open spec fn edit_failure(edit: Edit, event: EventView, i: int) -> AppErrorView {
    let n = edit.providers.len() as int;
    match event {
        EventView::Refused(error) => error,
        EventView::Failed(cause) => if i < n {
            not_a_party(edit.providers[i], cause)
        } else if i == n {
            AppErrorView::Unexpected { context: edit.starting, cause }
        } else if i == n + 3 {
            AppErrorView::Unexpected { context: edit.logging, cause }
        } else {
            AppErrorView::Unexpected { context: "error commiting transaction to db"@, cause }
        },
        _ => edit.missing,
    }
}

/// Whether a run of a request is that of an edit: its steps are taken one after
/// the other, none is left out, and the client gets an answer after the last of
/// them or as soon as one does not go well.
pub open spec fn is_edit_run(
    edit: Edit,
    request: Request,
    begun: Timestamp,
    turns: Seq<Turn>,
) -> bool {
    let n = edit.providers.len() as int;
    let count = turns.len() as int;
    &&& count <= n + 5
    &&& forall|i: int|
        0 <= i < count ==> #[trigger] laws::action_after(request, begun, turns, i) == edit_action(
            edit,
            laws::begun_at(begun, turns, i),
            i,
        )
    &&& forall|i: int| 0 <= i < count - 1 ==> goes_well((#[trigger] turns[i]).event)
    &&& if count > 0 && !goes_well(turns[count - 1].event) {
        laws::after(request, begun, turns).progress == (Progress::Finished {
            outcome: Err(edit_failure(edit, turns[count - 1].event, count - 1)),
        })
    } else if count == n + 5 {
        laws::after(request, begun, turns).progress == (Progress::Finished {
            outcome: Ok(edit.response),
        })
    } else {
        laws::action_after(request, begun, turns, count) == edit_action(
            edit,
            laws::begun_at(begun, turns, count),
            count,
        )
    }
}

/// Whether a run of a request is that of an errand: its parties are validated
/// one after the other, the store is asked once, and the client gets an answer
/// after that or as soon as a party is not valid.
pub open spec fn is_errand_run(
    errand: Errand,
    request: Request,
    begun: Timestamp,
    turns: Seq<Turn>,
) -> bool {
    let n = errand.providers.len() as int;
    let count = turns.len() as int;
    &&& count <= n + 1
    &&& forall|i: int|
        0 <= i < count ==> #[trigger] laws::action_after(request, begun, turns, i)
            == errand_action(errand, laws::begun_at(begun, turns, i), i)
    &&& forall|i: int| 0 <= i < n && i < count - 1 ==> (#[trigger] turns[i]).event is Done
    &&& if count > 0 && turns[count - 1].event is Refused {
        laws::after(request, begun, turns).progress == (Progress::Finished {
            outcome: Err(turns[count - 1].event->Refused_0),
        })
    } else if count > 0 && turns[count - 1].event is Failed {
        let cause = turns[count - 1].event->Failed_0;
        laws::after(request, begun, turns).progress == (Progress::Finished {
            outcome: Err(
                if count - 1 < n {
                    not_a_party(errand.providers[count - 1], cause)
                } else {
                    AppErrorView::Unexpected { context: "Error getting policicy sets"@, cause }
                },
            ),
        })
    } else if count == n + 1 {
        laws::after(request, begun, turns).progress == (Progress::Finished {
            outcome: errand.outcome,
        })
    } else {
        laws::action_after(request, begun, turns, count) == errand_action(
            errand,
            laws::begun_at(begun, turns, count),
            count,
        )
    }
}

/// What is done for an errand at the step with a number, which is begun at
/// `now`.
pub open spec fn errand_action(errand: Errand, now: Timestamp, i: int) -> ActionView {
    if i < errand.providers.len() {
        ActionView::ValidateParty { now, party: errand.providers[i] }
    } else {
        ActionView::Call { scope: Scope::Connection, call: errand.call }
    }
}

/// The runs of an edit, from the plan that it follows.
proof fn lemma_edit_run(edit: Edit, request: Request, begun: Timestamp, turns: Seq<Turn>)
    requires
        laws::is_run(request, begun, turns),
        model::is_edit(request),
        edit.providers == model::parties(request),
        edit.look_up == model::look_up(request),
        edit.missing == model::nothing_to_edit(request),
        edit.scope == model::scope(request),
        forall|now: Timestamp| edit.change == #[trigger] model::store_call(request, now),
        edit.policy_set_id == model::edited_policy_set(request),
        edit.starting == model::step_context(request, model::Step::Begin),
        edit.logging == model::step_context(request, model::Step::Log),
        edit.providers.len() + 2 < turns.len() && event_at(turns, edit.providers.len() + 2)
            is Replied ==> ({
            let reply = event_at(turns, edit.providers.len() + 2)->Replied_0;
            model::fits(request, reply) ==> edit.recorded == model::edit_event(request, reply)
                && model::conclusion(request, reply) == Ok::<Response, AppErrorView>(edit.response)
        }),
    ensures
        is_edit_run(edit, request, begun, turns),
{
    let n = edit.providers.len() as int;
    let count = turns.len() as int;
    let plan = model::plan(request);
    laws::lemma_plan(request);
    laws::lemma_run(request, begun, turns);
    assert(plan[n] is Begin && plan[n + 1] is LookUp && plan[n + 2] is Call && plan[n + 3] is Log
        && plan[n + 4] is Commit);
    assert(turns.take(count) =~= turns);
    assert forall|i: int| 0 <= i < count implies goes_well((#[trigger] turns[i]).event)
        == model::is_success(plan[i], turns[i].event) by {
        assert(model::answers_step(request, plan[i], turns[i].event));
    }
    if n + 2 < count {
        assert(model::answers_step(request, plan[n + 2], turns[n + 2].event));
    }
    assert forall|i: int| 0 <= i < count implies #[trigger] laws::action_after(
        request,
        begun,
        turns,
        i,
    ) == edit_action(edit, laws::begun_at(begun, turns, i), i) by {
        laws::lemma_action_after(request, begun, turns, i);
        if n + 2 < i {
            assert(goes_well(turns[n + 2].event));
        }
    }
    laws::lemma_action_after(request, begun, turns, count);
    if count > 0 {
        assert(turns.last() == turns[count - 1]);
        assert(model::answers_step(request, plan[count - 1], turns[count - 1].event));
    }
    if n + 2 < count - 1 {
        assert(goes_well(turns[n + 2].event));
    }
}

/// The runs of an errand, from the plan that it follows.
proof fn lemma_errand_run(errand: Errand, request: Request, begun: Timestamp, turns: Seq<Turn>)
    requires
        laws::is_run(request, begun, turns),
        !model::is_edit(request),
        errand.providers == model::parties(request),
        errand.call == model::store_call(
            request,
            laws::begun_at(begun, turns, errand.providers.len() as int),
        ),
        errand.providers.len() < turns.len() && event_at(turns, errand.providers.len())
            is Replied ==> ({
            let reply = event_at(turns, errand.providers.len())->Replied_0;
            model::fits(request, reply) ==> errand.outcome == model::conclusion(request, reply)
        }),
    ensures
        is_errand_run(errand, request, begun, turns),
{
    let n = errand.providers.len() as int;
    let count = turns.len() as int;
    let plan = model::plan(request);
    laws::lemma_plan(request);
    laws::lemma_run(request, begun, turns);
    assert(plan[n] is Call);
    assert(turns.take(count) =~= turns);
    assert forall|i: int| 0 <= i < n && i < count - 1 implies (#[trigger] turns[i]).event is Done by {
        assert(model::answers_step(request, plan[i], turns[i].event));
    }
    assert forall|i: int| 0 <= i < count implies #[trigger] laws::action_after(
        request,
        begun,
        turns,
        i,
    ) == errand_action(errand, laws::begun_at(begun, turns, i), i) by {
        laws::lemma_action_after(request, begun, turns, i);
    }
    laws::lemma_action_after(request, begun, turns, count);
    if count > 0 {
        assert(turns.last() == turns[count - 1]);
        assert(model::answers_step(request, plan[count - 1], turns[count - 1].event));
    }
}

/// The addition of a policy: it is added to the policy set that the client
/// names, as the client sent it; what is recorded names it by the identifier
/// that the store gave it; and the client gets it as the store has written it.
pub open spec fn addition(id: Uuid, body: Policy, turns: Seq<Turn>) -> Edit {
    Edit {
        providers: providers_of(body),
        look_up: StoreCallView::GetPolicySetWithPolicies { id },
        missing: not_there("Policy set not found"@, names_policy_set(id)),
        scope: Scope::Transaction,
        change: StoreCallView::AddPolicyToPolicySet { id, body },
        recorded: EventType::ArPolicySetEdited {
            policy_set_id: id,
            edited_type: EditedType::PolicyAdded { policy_id: written(body, turns).id },
        },
        policy_set_id: id,
        starting: "error starting db connection"@,
        logging: "error logging policy added event"@,
        response: Response { status: 200, body: ResponseBody::Policy(written(body, turns)) },
    }
}

/// Every run of a request to add a policy is that of its addition.
pub proof fn law_adding_a_policy(id: Uuid, body: Policy, begun: Timestamp, turns: Seq<Turn>)
    requires
        laws::is_run(Request::AddPolicyToPolicySet { id, body }, begun, turns),
    ensures
        is_edit_run(
            addition(id, body, turns),
            Request::AddPolicyToPolicySet { id, body },
            begun,
            turns,
        ),
{
    let request = Request::AddPolicyToPolicySet { id, body };
    assert(providers_of(body) =~= model::parties(request));
    lemma_edit_run(addition(id, body, turns), request, begun, turns);
}

/// The replacement of a policy: the one that the client names is replaced, in
/// the policy set that the client names, by the one that the client sent; what
/// is recorded names both of them; and the client gets the new one as the store
/// has written it.
pub open spec fn replacement(
    policy_set_id: Uuid,
    policy_id: Uuid,
    body: Policy,
    turns: Seq<Turn>,
) -> Edit {
    Edit {
        providers: providers_of(body),
        look_up: StoreCallView::GetPolicy { policy_set_id, policy_id },
        missing: not_there(
            "Policy set or policy not found"@,
            names_policy(policy_set_id, policy_id),
        ),
        scope: Scope::Connection,
        change: StoreCallView::ReplacePolicy { policy_set_id, policy_id, body },
        recorded: EventType::ArPolicySetEdited {
            policy_set_id,
            edited_type: EditedType::PolicyReplaced {
                old_policy_id: policy_id,
                new_policy_id: written(body, turns).id,
            },
        },
        policy_set_id,
        starting: "error starting db transaction"@,
        logging: "Error logging policy set edited event"@,
        response: Response { status: 200, body: ResponseBody::Policy(written(body, turns)) },
    }
}

/// Every run of a request to replace a policy is that of its replacement.
pub proof fn law_replacing_a_policy(
    policy_set_id: Uuid,
    policy_id: Uuid,
    body: Policy,
    begun: Timestamp,
    turns: Seq<Turn>,
)
    requires
        laws::is_run(
            Request::ReplacePolicyInPolicySet { policy_set_id, policy_id, body },
            begun,
            turns,
        ),
    ensures
        is_edit_run(
            replacement(policy_set_id, policy_id, body, turns),
            Request::ReplacePolicyInPolicySet { policy_set_id, policy_id, body },
            begun,
            turns,
        ),
{
    let request = Request::ReplacePolicyInPolicySet { policy_set_id, policy_id, body };
    assert(providers_of(body) =~= model::parties(request));
    lemma_edit_run(replacement(policy_set_id, policy_id, body, turns), request, begun, turns);
}

/// The deletion of a policy set: the one that the client names is deleted, that
/// is recorded, and the client gets an answer without content.
pub open spec fn policy_set_deletion(id: Uuid) -> Edit {
    Edit {
        providers: Seq::empty(),
        look_up: StoreCallView::GetPolicySetWithPolicies { id },
        missing: not_there("Policy set not found"@, names_policy_set(id)),
        scope: Scope::Transaction,
        change: StoreCallView::DeletePolicySet { id },
        recorded: EventType::ArPolicySetDeleted { policy_set_id: id },
        policy_set_id: id,
        starting: "error starting db transaction"@,
        logging: "Error logging policy set deleted event"@,
        response: Response { status: 204, body: ResponseBody::Empty },
    }
}

/// Every run of a request to delete a policy set is that of its deletion.
pub proof fn law_deleting_a_policy_set(id: Uuid, begun: Timestamp, turns: Seq<Turn>)
    requires
        laws::is_run(Request::DeletePolicySet { id }, begun, turns),
    ensures
        is_edit_run(policy_set_deletion(id), Request::DeletePolicySet { id }, begun, turns),
{
    lemma_edit_run(policy_set_deletion(id), Request::DeletePolicySet { id }, begun, turns);
}

/// The removal of a policy: the one that the client names is deleted once it was
/// found in the policy set that the client names, that is recorded under the
/// policy set, and the client gets an answer without content.
pub open spec fn removal(policy_set_id: Uuid, policy_id: Uuid) -> Edit {
    Edit {
        providers: Seq::empty(),
        look_up: StoreCallView::GetPolicy { policy_set_id, policy_id },
        missing: not_there("Policy not found"@, names_policy(policy_set_id, policy_id)),
        scope: Scope::Transaction,
        change: StoreCallView::DeletePolicy { policy_id },
        recorded: EventType::ArPolicySetEdited {
            policy_set_id,
            edited_type: EditedType::PolicyRemoved { policy_id },
        },
        policy_set_id,
        starting: "error starting db transaction"@,
        logging: "Error logging policy set edited event"@,
        response: Response { status: 204, body: ResponseBody::Empty },
    }
}

/// Every run of a request to delete a policy is that of its removal.
pub proof fn law_removing_a_policy(
    policy_set_id: Uuid,
    policy_id: Uuid,
    begun: Timestamp,
    turns: Seq<Turn>,
)
    requires
        laws::is_run(Request::DeletePolicyFromPolicySet { policy_set_id, policy_id }, begun, turns),
    ensures
        is_edit_run(
            removal(policy_set_id, policy_id),
            Request::DeletePolicyFromPolicySet { policy_set_id, policy_id },
            begun,
            turns,
        ),
{
    let request = Request::DeletePolicyFromPolicySet { policy_set_id, policy_id };
    lemma_edit_run(removal(policy_set_id, policy_id), request, begun, turns);
}

/// A template is deleted by the identifier that the client gives, and the client
/// gets an empty answer.
pub proof fn law_deleting_a_template(id: Uuid, begun: Timestamp, turns: Seq<Turn>)
    requires
        laws::is_run(Request::DeletePolicySetTemplate { id }, begun, turns),
    ensures
        is_errand_run(
            (Errand {
                providers: Seq::empty(),
                call: StoreCallView::DeletePolicyTemplate { id },
                outcome: Ok(Response { status: 200, body: ResponseBody::Empty }),
            }),
            Request::DeletePolicySetTemplate { id },
            begun,
            turns,
        ),
{
    let errand = Errand {
        providers: Seq::empty(),
        call: StoreCallView::DeletePolicyTemplate { id },
        outcome: Ok(Response { status: 200, body: ResponseBody::Empty }),
    };
    lemma_errand_run(errand, Request::DeletePolicySetTemplate { id }, begun, turns);
}

/// How many service providers the first `p` policies of a template name.
pub open spec fn providers_before(policies: Seq<TemplatePolicy>, p: int) -> nat
    decreases p,
{
    if p <= 0 {
        0
    } else {
        providers_before(policies, p - 1) + policies[p - 1].service_providers@.len()
    }
}

/// Whether a list names each service provider of each policy of a template, one
/// policy after the other, and no one else.
pub open spec fn are_providers(list: Seq<Seq<char>>, policies: Seq<TemplatePolicy>) -> bool {
    &&& list.len() == providers_before(policies, policies.len() as int)
    &&& forall|p: int, k: int|
        0 <= p < policies.len() && 0 <= k < policies[p].service_providers@.len() ==> list[
        providers_before(policies, p) + k] == (#[trigger] policies[p].service_providers@[k])@
}

/// Two templates that begin with the same policies have named as many service
/// providers by then.
proof fn lemma_providers_before(a: Seq<TemplatePolicy>, b: Seq<TemplatePolicy>, p: int)
    requires
        p <= a.len(),
        p <= b.len(),
        forall|i: int| 0 <= i < p ==> a[i] == b[i],
    ensures
        providers_before(a, p) == providers_before(b, p),
    decreases p,
{
    if p > 0 {
        lemma_providers_before(a, b, p - 1);
    }
}

/// Later policies of a template come after the earlier ones.
proof fn lemma_providers_grow(policies: Seq<TemplatePolicy>, p: int, q: int)
    requires
        0 <= p < q <= policies.len(),
    ensures
        providers_before(policies, p) + policies[p].service_providers@.len() <= providers_before(
            policies,
            q,
        ),
    decreases q,
{
    if p < q - 1 {
        lemma_providers_grow(policies, p, q - 1);
    }
}

/// The parties of a template are the service providers of its policies.
proof fn lemma_template_parties(policies: Seq<TemplatePolicy>)
    ensures
        are_providers(model::template_parties(policies), policies),
    decreases policies.len(),
{
    let of = |p: TemplatePolicy| model::texts(p.service_providers@);
    let list = model::template_parties(policies);
    if policies.len() == 0 {
        assert(policies.map_values(of) =~= Seq::empty());
    } else {
        let first = policies.drop_last();
        let last = policies.last();
        let n = policies.len() as int;
        lemma_template_parties(first);
        assert(policies =~= first.push(last));
        assert(policies.map_values(of) =~= first.map_values(of).push(of(last)));
        first.map_values(of).lemma_flatten_push(of(last));
        let before = model::template_parties(first);
        assert(list == before + of(last));
        lemma_providers_before(policies, first, n - 1);
        assert forall|p: int, k: int|
            0 <= p < n && 0 <= k < policies[p].service_providers@.len() implies list[
        providers_before(policies, p) + k] == (#[trigger] policies[p].service_providers@[k])@ by {
            lemma_providers_before(policies, first, p);
            if p < n - 1 {
                lemma_providers_grow(first, p, n - 1);
                assert(first[p].service_providers@[k] == policies[p].service_providers@[k]);
            }
        }
    }
}

/// A template is created as the client sent it, once each service provider of
/// each of its policies is known to be valid, and the client gets the identifier
/// that the store gave it.
pub proof fn law_creating_a_template(
    body: InsertPolicySetTemplate,
    begun: Timestamp,
    turns: Seq<Turn>,
)
    requires
        laws::is_run(Request::InsertPolicySetTemplate { body }, begun, turns),
    ensures
        exists|providers: Seq<Seq<char>>|
            #![trigger are_providers(providers, body.policies@)]
            are_providers(providers, body.policies@) && is_errand_run(
                (Errand {
                    providers,
                    call: StoreCallView::InsertPolicySetTemplate { body },
                    outcome: Ok(
                        Response {
                            status: 200,
                            body: ResponseBody::TemplateInserted(
                                InsertPolicySetTemplateResponse {
                                    uuid: event_at(turns, providers.len())->Replied_0->Inserted_0,
                                },
                            ),
                        },
                    ),
                }),
                Request::InsertPolicySetTemplate { body },
                begun,
                turns,
            ),
{
    let providers = model::template_parties(body.policies@);
    let errand = Errand {
        providers,
        call: StoreCallView::InsertPolicySetTemplate { body },
        outcome: Ok(
            Response {
                status: 200,
                body: ResponseBody::TemplateInserted(
                    InsertPolicySetTemplateResponse {
                        uuid: event_at(turns, providers.len())->Replied_0->Inserted_0,
                    },
                ),
            },
        ),
    };
    lemma_template_parties(body.policies@);
    lemma_errand_run(errand, Request::InsertPolicySetTemplate { body }, begun, turns);
}

/// A policy is looked up in the policy set by the identifiers that the client
/// gives, and the client gets what the store has found, or is told which policy
/// is not there.
pub proof fn law_getting_a_policy(
    policy_set_id: Uuid,
    policy_id: Uuid,
    begun: Timestamp,
    turns: Seq<Turn>,
)
    requires
        laws::is_run(Request::GetPolicy { policy_set_id, policy_id }, begun, turns),
    ensures
        is_errand_run(
            (Errand {
                providers: Seq::empty(),
                call: StoreCallView::GetPolicy { policy_set_id, policy_id },
                outcome: match event_at(turns, 0)->Replied_0->FoundPolicy_0 {
                    Some(policy) => Ok(Response { status: 200, body: ResponseBody::Policy(policy) }),
                    None => Err(
                        not_there("Can't find policy"@, names_policy(policy_set_id, policy_id)),
                    ),
                },
            }),
            Request::GetPolicy { policy_set_id, policy_id },
            begun,
            turns,
        ),
{
    let errand = Errand {
        providers: Seq::empty(),
        call: StoreCallView::GetPolicy { policy_set_id, policy_id },
        outcome: match event_at(turns, 0)->Replied_0->FoundPolicy_0 {
            Some(policy) => Ok(Response { status: 200, body: ResponseBody::Policy(policy) }),
            None => Err(not_there("Can't find policy"@, names_policy(policy_set_id, policy_id))),
        },
    };
    lemma_errand_run(errand, Request::GetPolicy { policy_set_id, policy_id }, begun, turns);
}

/// A policy set is looked up by the identifier that the client gives, and the
/// client gets what the store has found, or is told that it is not there.
pub proof fn law_getting_a_policy_set(id: Uuid, begun: Timestamp, turns: Seq<Turn>)
    requires
        laws::is_run(Request::GetPolicySet { id }, begun, turns),
    ensures
        is_errand_run(
            (Errand {
                providers: Seq::empty(),
                call: StoreCallView::GetPolicySetWithPolicies { id },
                outcome: match event_at(turns, 0)->Replied_0->FoundPolicySet_0 {
                    Some(found) => Ok(Response { status: 200, body: ResponseBody::PolicySet(found) }),
                    None => Err(not_there("Can't find policy set"@, "Can't find policy set"@)),
                },
            }),
            Request::GetPolicySet { id },
            begun,
            turns,
        ),
{
    let errand = Errand {
        providers: Seq::empty(),
        call: StoreCallView::GetPolicySetWithPolicies { id },
        outcome: match event_at(turns, 0)->Replied_0->FoundPolicySet_0 {
            Some(found) => Ok(Response { status: 200, body: ResponseBody::PolicySet(found) }),
            None => Err(not_there("Can't find policy set"@, "Can't find policy set"@)),
        },
    };
    lemma_errand_run(errand, Request::GetPolicySet { id }, begun, turns);
}

/// A policy set is created as the client sent it, at the time at which the
/// request was begun, and the client gets the identifier that the store gave it.
pub proof fn law_creating_a_policy_set(
    body: InsertPolicySetWithPolicies,
    begun: Timestamp,
    turns: Seq<Turn>,
)
    requires
        laws::is_run(Request::InsertPolicySet { body }, begun, turns),
    ensures
        is_errand_run(
            (Errand {
                providers: Seq::empty(),
                call: StoreCallView::InsertPolicySetWithPoliciesAdmin { now: begun, body },
                outcome: Ok(
                    Response {
                        status: 200,
                        body: ResponseBody::PolicySetInserted(
                            InsertPolicySetResponse {
                                uuid: event_at(turns, 0)->Replied_0->Inserted_0,
                            },
                        ),
                    },
                ),
            }),
            Request::InsertPolicySet { body },
            begun,
            turns,
        ),
{
    let errand = Errand {
        providers: Seq::empty(),
        call: StoreCallView::InsertPolicySetWithPoliciesAdmin { now: begun, body },
        outcome: Ok(
            Response {
                status: 200,
                body: ResponseBody::PolicySetInserted(
                    InsertPolicySetResponse { uuid: event_at(turns, 0)->Replied_0->Inserted_0 },
                ),
            },
        ),
    };
    lemma_errand_run(errand, Request::InsertPolicySet { body }, begun, turns);
}

/// A list of policy sets is narrowed down and cut into pages as the client asks,
/// and the client gets it as the store gives it.
pub proof fn law_listing_policy_sets(query: GetPolicySetsQuery, begun: Timestamp, turns: Seq<Turn>)
    requires
        laws::is_run(Request::GetAllPolicySets { query }, begun, turns),
    ensures
        is_errand_run(
            (Errand {
                providers: Seq::empty(),
                call: StoreCallView::GetPolicySetsWithPolicies {
                    access_subject: query.access_subject,
                    policy_issuer: query.policy_issuer,
                    q: query.q,
                    skip: query.skip,
                    limit: query.limit,
                },
                outcome: Ok(
                    Response {
                        status: 200,
                        body: ResponseBody::PolicySets(
                            event_at(turns, 0)->Replied_0->PolicySets_0,
                        ),
                    },
                ),
            }),
            Request::GetAllPolicySets { query },
            begun,
            turns,
        ),
{
    let errand = Errand {
        providers: Seq::empty(),
        call: StoreCallView::GetPolicySetsWithPolicies {
            access_subject: query.access_subject,
            policy_issuer: query.policy_issuer,
            q: query.q,
            skip: query.skip,
            limit: query.limit,
        },
        outcome: Ok(
            Response {
                status: 200,
                body: ResponseBody::PolicySets(event_at(turns, 0)->Replied_0->PolicySets_0),
            },
        ),
    };
    lemma_errand_run(errand, Request::GetAllPolicySets { query }, begun, turns);
}

/// The store is asked for a list with each field of the query as the client gave
/// it, and for nothing else.
pub proof fn law_a_list_is_asked_for_as_queried(
    query: GetPolicySetsQuery,
    begun: Timestamp,
    turns: Seq<Turn>,
    i: int,
    scope: Scope,
    call: StoreCallView,
)
    requires
        laws::is_run(Request::GetAllPolicySets { query }, begun, turns),
        0 <= i <= turns.len(),
        laws::action_after(Request::GetAllPolicySets { query }, begun, turns, i)
            == (ActionView::Call { scope, call }),
    ensures
        i == 0,
        call is GetPolicySetsWithPolicies,
        call->access_subject == query.access_subject,
        call->policy_issuer == query.policy_issuer,
        call->q == query.q,
        call->skip == query.skip,
        call->limit == query.limit,
{
    law_listing_policy_sets(query, begun, turns);
    assert(turns.take(turns.len() as int) =~= turns);
}

/// When a request to add a policy gets as far as to anything but validation,
/// every service provider that the policy names has been found valid: the one
/// with number `k` at step `k`.
pub proof fn law_providers_are_validated_before_an_addition(
    id: Uuid,
    body: Policy,
    begun: Timestamp,
    turns: Seq<Turn>,
    i: int,
    k: int,
)
    requires
        laws::is_run(Request::AddPolicyToPolicySet { id, body }, begun, turns),
        0 <= i <= turns.len(),
        ({
            let action = laws::action_after(
                Request::AddPolicyToPolicySet { id, body },
                begun,
                turns,
                i,
            );
            !(action is ValidateParty) && !(action is Respond)
        }),
        0 <= k < body.target.environment.service_providers@.len(),
    ensures
        k < i,
        laws::action_after(Request::AddPolicyToPolicySet { id, body }, begun, turns, k) == (
        ActionView::ValidateParty {
            now: laws::begun_at(begun, turns, k),
            party: body.target.environment.service_providers@[k]@,
        }),
        turns[k].event is Done,
{
    let request = Request::AddPolicyToPolicySet { id, body };
    laws::lemma_action_after(request, begun, turns, i);
    laws::lemma_prefix(request, begun, turns, i);
    law_adding_a_policy(id, body, begun, turns);
    law_adding_a_policy(id, body, begun, turns.take(i));
    lemma_taken(request, begun, turns, i);
    laws::lemma_prefix(request, begun, turns, k);
    law_what_can_come_of_an_action(request, begun, turns.take(k), turns[k].event);
    assert(turns.take(i)[k] == turns[k]);
}

/// When a request to replace a policy gets as far as to anything but validation,
/// every service provider that the new policy names has been found valid: the
/// one with number `k` at step `k`.
pub proof fn law_providers_are_validated_before_a_replacement(
    policy_set_id: Uuid,
    policy_id: Uuid,
    body: Policy,
    begun: Timestamp,
    turns: Seq<Turn>,
    i: int,
    k: int,
)
    requires
        laws::is_run(
            Request::ReplacePolicyInPolicySet { policy_set_id, policy_id, body },
            begun,
            turns,
        ),
        0 <= i <= turns.len(),
        ({
            let action = laws::action_after(
                Request::ReplacePolicyInPolicySet { policy_set_id, policy_id, body },
                begun,
                turns,
                i,
            );
            !(action is ValidateParty) && !(action is Respond)
        }),
        0 <= k < body.target.environment.service_providers@.len(),
    ensures
        k < i,
        laws::action_after(
            Request::ReplacePolicyInPolicySet { policy_set_id, policy_id, body },
            begun,
            turns,
            k,
        ) == (ActionView::ValidateParty {
            now: laws::begun_at(begun, turns, k),
            party: body.target.environment.service_providers@[k]@,
        }),
        turns[k].event is Done,
{
    let request = Request::ReplacePolicyInPolicySet { policy_set_id, policy_id, body };
    laws::lemma_action_after(request, begun, turns, i);
    laws::lemma_prefix(request, begun, turns, i);
    law_replacing_a_policy(policy_set_id, policy_id, body, begun, turns);
    law_replacing_a_policy(policy_set_id, policy_id, body, begun, turns.take(i));
    lemma_taken(request, begun, turns, i);
    laws::lemma_prefix(request, begun, turns, k);
    law_what_can_come_of_an_action(request, begun, turns.take(k), turns[k].event);
    assert(turns.take(i)[k] == turns[k]);
}

/// A service provider that is not a valid party ends the addition of a policy at
/// once, and the client is told which one it was.
pub proof fn law_an_invalid_provider_ends_an_addition(
    id: Uuid,
    body: Policy,
    begun: Timestamp,
    turns: Seq<Turn>,
    k: int,
    cause: Seq<char>,
)
    requires
        laws::is_run(Request::AddPolicyToPolicySet { id, body }, begun, turns),
        0 <= k < turns.len(),
        k < body.target.environment.service_providers@.len(),
        turns[k].event == EventView::Failed(cause),
    ensures
        turns.len() == k + 1,
        laws::after(Request::AddPolicyToPolicySet { id, body }, begun, turns).progress == (
        Progress::Finished {
            outcome: Err(
                not_a_party(body.target.environment.service_providers@[k]@, cause),
            ),
        }),
{
    law_adding_a_policy(id, body, begun, turns);
}

/// A service provider that is not a valid party ends the replacement of a policy
/// at once, and the client is told which one it was.
pub proof fn law_an_invalid_provider_ends_a_replacement(
    policy_set_id: Uuid,
    policy_id: Uuid,
    body: Policy,
    begun: Timestamp,
    turns: Seq<Turn>,
    k: int,
    cause: Seq<char>,
)
    requires
        laws::is_run(
            Request::ReplacePolicyInPolicySet { policy_set_id, policy_id, body },
            begun,
            turns,
        ),
        0 <= k < turns.len(),
        k < body.target.environment.service_providers@.len(),
        turns[k].event == EventView::Failed(cause),
    ensures
        turns.len() == k + 1,
        laws::after(
            Request::ReplacePolicyInPolicySet { policy_set_id, policy_id, body },
            begun,
            turns,
        ).progress == (Progress::Finished {
            outcome: Err(
                not_a_party(body.target.environment.service_providers@[k]@, cause),
            ),
        }),
{
    law_replacing_a_policy(policy_set_id, policy_id, body, begun, turns);
}

/// The client who adds or replaces a policy with success gets the very policy
/// that the store has written, identifier and document.
pub proof fn law_the_written_policy_is_the_answer(
    request: Request,
    begun: Timestamp,
    turns: Seq<Turn>,
    k: int,
    policy: PolicyModel,
    response: Response,
)
    requires
        laws::is_run(request, begun, turns),
        0 <= k < turns.len(),
        turns[k].event == EventView::Replied(StoreReply::Written(policy)),
        laws::after(request, begun, turns).progress == (Progress::Finished {
            outcome: Ok(response),
        }),
    ensures
        request is AddPolicyToPolicySet || request is ReplacePolicyInPolicySet,
        response.status == 200,
        response.body == ResponseBody::Policy(policy),
{
    laws::lemma_prefix(request, begun, turns, k);
    law_what_can_come_of_an_action(request, begun, turns.take(k), turns[k].event);
    laws::lemma_plan(request);
    laws::lemma_run(request, begun, turns);
    assert(model::answers_step(request, model::plan(request)[k], turns[k].event));
    match request {
        Request::AddPolicyToPolicySet { id, body } => {
            law_adding_a_policy(id, body, begun, turns);
        },
        Request::ReplacePolicyInPolicySet { policy_set_id, policy_id, body } => {
            law_replacing_a_policy(policy_set_id, policy_id, body, begun, turns);
        },
        _ => {},
    }
}

/// The first turns of a run see the same actions as the whole of it.
proof fn lemma_taken(request: Request, begun: Timestamp, turns: Seq<Turn>, i: int)
    requires
        0 <= i <= turns.len(),
    ensures
        forall|k: int|
            0 <= k <= i ==> #[trigger] laws::action_after(request, begun, turns.take(i), k)
                == laws::action_after(request, begun, turns, k),
{
    assert forall|k: int| 0 <= k <= i implies #[trigger] laws::action_after(
        request,
        begun,
        turns.take(i),
        k,
    ) == laws::action_after(request, begun, turns, k) by {
        assert(turns.take(i).take(k) =~= turns.take(k));
    }
}

/// What can come of an action: the store replies to a call with what that call
/// is for, or refuses it, and only a list fails with a plain cause; everything
/// else is done or fails.
pub proof fn law_what_can_come_of_an_action(
    request: Request,
    begun: Timestamp,
    turns: Seq<Turn>,
    event: EventView,
)
    requires
        laws::is_run(request, begun, turns),
    ensures
        model::answers(laws::after(request, begun, turns), event) <==> match model::action(laws::after(request, begun, turns)) {
            ActionView::Respond => false,
            ActionView::Call { scope, call } => match event {
                EventView::Done => false,
                EventView::Failed(_) => call is GetPolicySetsWithPolicies,
                EventView::Refused(_) => !(call is GetPolicySetsWithPolicies),
                EventView::Replied(reply) => match call {
                    StoreCallView::DeletePolicyTemplate { .. } => reply is Done,
                    StoreCallView::InsertPolicySetTemplate { .. } => reply is Inserted,
                    StoreCallView::GetPolicy { .. } => reply is FoundPolicy,
                    StoreCallView::AddPolicyToPolicySet { .. } => reply is Written,
                    StoreCallView::ReplacePolicy { .. } => reply is Written,
                    StoreCallView::DeletePolicySet { .. } => reply is Done,
                    StoreCallView::DeletePolicy { .. } => reply is Done,
                    StoreCallView::GetPolicySetWithPolicies { .. } => reply is FoundPolicySet,
                    StoreCallView::InsertPolicySetWithPoliciesAdmin { .. } => reply is Inserted,
                    StoreCallView::GetPolicySetsWithPolicies { .. } => reply is PolicySets,
                },
            },
            _ => event is Done || event is Failed,
        },
{
    let count = turns.len() as int;
    laws::lemma_plan(request);
    laws::lemma_run(request, begun, turns);
    laws::lemma_action_after(request, begun, turns, count);
    assert(turns.take(count) =~= turns);
}

} // verus!
