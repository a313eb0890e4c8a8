//! Requests step by step: which action comes when, and what each failure is
//! answered with.

use authorization_registry::audit::{EditedType, EventType};
use authorization_registry::error::{AppError, ExpectedError};
use authorization_registry::exchange::{conclude, Exchange};
use authorization_registry::ids::Uuid;
use authorization_registry::policy::{
    Document, Effect, Environment, GetPolicySetsQuery, InsertPolicySetTemplate,
    MatchingPolicySetRow, Policy, PolicyModel, PolicyTarget, Resource, Rule, TemplatePolicy,
};
use authorization_registry::request::{
    Action, Event, Request, ResponseBody, Scope, StoreCall, StoreReply,
};
use authorization_registry::routes::admin;
use authorization_registry::time::Timestamp;

const SET: Uuid = Uuid { bits: 0x11111111_2222_3333_4444_555555555555 };
const OLD: Uuid = Uuid { bits: 0xaaaaaaaa_bbbb_cccc_dddd_eeeeeeeeeeee };
const NEW: Uuid = Uuid { bits: 0x67e55044_10b1_426f_9247_bb680e5fe0c8 };
const SET_TEXT: &str = "11111111-2222-3333-4444-555555555555";

fn at(seconds: i64) -> Timestamp {
    Timestamp { seconds, nanos: 0 }
}

fn strings(list: &[&str]) -> Vec<String> {
    list.iter().map(|s| s.to_string()).collect()
}

fn policy(service_providers: &[&str]) -> Policy {
    Policy {
        target: PolicyTarget {
            resource: Resource {
                resource_type: "Fishes".to_owned(),
                identifiers: strings(&["*"]),
                attributes: strings(&["*"]),
            },
            actions: strings(&["Read"]),
            environment: Environment { service_providers: strings(service_providers) },
        },
        rules: vec![Rule { effect: Effect::Permit, target: None }],
    }
}

fn model(id: Uuid) -> PolicyModel {
    PolicyModel { id, document: Document { text: "a policy".to_owned() } }
}

fn template_policy(service_providers: &[&str]) -> TemplatePolicy {
    TemplatePolicy {
        resource_type: "Fishes".to_owned(),
        identifiers: vec![],
        attributes: vec![],
        actions: vec![],
        service_providers: strings(service_providers),
        rules: vec![],
    }
}

fn party(exchange: &Exchange) -> (i64, String) {
    match exchange.action() {
        Action::ValidateParty { now, party } => (now.seconds, party.to_owned()),
        _ => panic!("no party to validate"),
    }
}

fn failed(cause: &str) -> Event {
    Event::Failed(cause.to_owned())
}

fn expected(exchange: Exchange) -> (u16, String, String) {
    match exchange.into_outcome() {
        Err(AppError::Expected(e)) => {
            assert!(e.metadata.is_none());
            (e.status_code, e.message, e.reason)
        }
        _ => panic!("not an expected error"),
    }
}

fn unexpected(exchange: Exchange) -> (String, String) {
    match exchange.into_outcome() {
        Err(AppError::Unexpected(e)) => (e.context, e.cause),
        _ => panic!("not an unexpected error"),
    }
}

fn logged(exchange: &Exchange) -> (i64, String, EventType) {
    match exchange.action() {
        Action::LogEvent { entry } => {
            assert!(entry.data.is_none());
            assert!(entry.context.is_none());
            (entry.time.seconds, entry.source, entry.event_type)
        }
        _ => panic!("nothing to log"),
    }
}

fn found_policy() -> StoreReply {
    StoreReply::FoundPolicy(Some(model(OLD)))
}

fn found_set() -> StoreReply {
    let row = MatchingPolicySetRow { document: Document { text: "a set".to_owned() } };
    StoreReply::FoundPolicySet(Some(row))
}

/// An exchange that has taken `steps` steps, all of them with success.
fn advanced(mut exchange: Exchange, steps: usize, reply: StoreReply) -> Exchange {
    let mut reply = Some(reply);
    for _ in 0..steps {
        let event = match exchange.action() {
            Action::Call { scope: Scope::Transaction, call: StoreCall::GetPolicy { .. } } => {
                Event::Replied(found_policy())
            }
            Action::Call {
                scope: Scope::Transaction,
                call: StoreCall::GetPolicySetWithPolicies { .. },
            } => Event::Replied(found_set()),
            Action::Call { .. } => Event::Replied(reply.take().unwrap()),
            _ => Event::Done,
        };
        exchange = exchange.resume(event, at(9));
    }
    exchange
}

#[test]
fn adding_a_policy_step_by_step() {
    let exchange = admin::add_policy_to_policy_set(SET, policy(&["A", "B"]), at(1));
    assert_eq!(party(&exchange), (1, "A".to_owned()));
    let exchange = exchange.resume(Event::Done, at(2));
    assert_eq!(party(&exchange), (2, "B".to_owned()));
    let exchange = exchange.resume(Event::Done, at(3));
    assert!(matches!(exchange.action(), Action::Begin));
    let exchange = exchange.resume(Event::Done, at(4));
    assert!(matches!(
        exchange.action(),
        Action::Call {
            scope: Scope::Transaction,
            call: StoreCall::GetPolicySetWithPolicies { id: SET },
        }
    ));
    let exchange = exchange.resume(Event::Replied(found_set()), at(4));
    match exchange.action() {
        Action::Call { scope, call: StoreCall::AddPolicyToPolicySet { id, body } } => {
            assert_eq!(scope, Scope::Transaction);
            assert_eq!(id, SET);
            assert_eq!(body.target.environment.service_providers, strings(&["A", "B"]));
        }
        _ => panic!("the policy is not added"),
    }
    let exchange = exchange.resume(Event::Replied(StoreReply::Written(model(NEW))), at(5));
    assert_eq!(
        logged(&exchange),
        (
            5,
            SET_TEXT.to_owned(),
            EventType::ArPolicySetEdited {
                policy_set_id: SET,
                edited_type: EditedType::PolicyAdded { policy_id: NEW },
            }
        )
    );
    let exchange = exchange.resume(Event::Done, at(6));
    assert!(matches!(exchange.action(), Action::Commit));
    let exchange = exchange.resume(Event::Done, at(7));
    assert!(matches!(exchange.action(), Action::Respond));
    let response = exchange.into_outcome().unwrap();
    assert_eq!(response.status, 200);
    assert!(matches!(response.body, ResponseBody::Policy(p) if p.id == NEW));
}

#[test]
fn replacing_a_policy_is_done_on_the_connection() {
    let exchange = admin::replace_policy_in_policy_set(SET, OLD, policy(&[]), at(1));
    assert!(matches!(exchange.action(), Action::Begin));
    let exchange = exchange.resume(Event::Done, at(2));
    assert!(matches!(
        exchange.action(),
        Action::Call {
            scope: Scope::Transaction,
            call: StoreCall::GetPolicy { policy_set_id: SET, policy_id: OLD },
        }
    ));
    let exchange = exchange.resume(Event::Replied(found_policy()), at(2));
    match exchange.action() {
        Action::Call { scope, call: StoreCall::ReplacePolicy { policy_set_id, policy_id, body } } => {
            assert_eq!(scope, Scope::Connection);
            assert_eq!((policy_set_id, policy_id), (SET, OLD));
            assert_eq!(body.target.resource.resource_type, "Fishes");
        }
        _ => panic!("the policy is not replaced"),
    }
    let exchange = exchange.resume(Event::Replied(StoreReply::Written(model(NEW))), at(3));
    assert_eq!(
        logged(&exchange),
        (
            3,
            SET_TEXT.to_owned(),
            EventType::ArPolicySetEdited {
                policy_set_id: SET,
                edited_type: EditedType::PolicyReplaced { old_policy_id: OLD, new_policy_id: NEW },
            }
        )
    );
    let response = advanced(exchange, 2, StoreReply::Done).into_outcome().unwrap();
    assert_eq!(response.status, 200);
    assert!(matches!(response.body, ResponseBody::Policy(p) if p.id == NEW));
}

#[test]
fn deleting_a_policy_set() {
    let exchange = admin::delete_policy_set(SET, at(1)).resume(Event::Done, at(2));
    assert!(matches!(
        exchange.action(),
        Action::Call {
            scope: Scope::Transaction,
            call: StoreCall::GetPolicySetWithPolicies { id: SET },
        }
    ));
    let exchange = exchange.resume(Event::Replied(found_set()), at(2));
    assert!(matches!(
        exchange.action(),
        Action::Call { scope: Scope::Transaction, call: StoreCall::DeletePolicySet { id } } if id == SET
    ));
    let exchange = exchange.resume(Event::Replied(StoreReply::Done), at(3));
    assert_eq!(
        logged(&exchange),
        (3, SET_TEXT.to_owned(), EventType::ArPolicySetDeleted { policy_set_id: SET })
    );
    let response = advanced(exchange, 2, StoreReply::Done).into_outcome().unwrap();
    assert_eq!(response.status, 204);
    assert!(matches!(response.body, ResponseBody::Empty));
}

#[test]
fn deleting_a_policy_from_a_policy_set() {
    let exchange = admin::delete_policy_from_policy_set(SET, OLD, at(1));
    assert!(matches!(exchange.action(), Action::Begin));
    let exchange = exchange.resume(Event::Done, at(2));
    assert!(matches!(
        exchange.action(),
        Action::Call {
            scope: Scope::Transaction,
            call: StoreCall::GetPolicy { policy_set_id: SET, policy_id: OLD },
        }
    ));
    let exchange = exchange.resume(Event::Replied(found_policy()), at(2));
    assert!(matches!(
        exchange.action(),
        Action::Call { scope: Scope::Transaction, call: StoreCall::DeletePolicy { policy_id } }
            if policy_id == OLD
    ));
    let exchange = exchange.resume(Event::Replied(StoreReply::Done), at(3));
    assert_eq!(
        logged(&exchange),
        (
            3,
            SET_TEXT.to_owned(),
            EventType::ArPolicySetEdited {
                policy_set_id: SET,
                edited_type: EditedType::PolicyRemoved { policy_id: OLD },
            }
        )
    );
    assert_eq!(advanced(exchange, 2, StoreReply::Done).into_outcome().unwrap().status, 204);
}

#[test]
fn a_policy_elsewhere_is_not_removed() {
    let exchange = admin::delete_policy_from_policy_set(SET, OLD, at(1))
        .resume(Event::Done, at(2))
        .resume(Event::Replied(StoreReply::FoundPolicy(None)), at(3));
    assert!(matches!(exchange.action(), Action::Respond));
    assert!(!exchange.answered_by(&Event::Done));
    assert_eq!(
        expected(exchange),
        (
            404,
            "Policy not found".to_owned(),
            "Unable to find policy with id 'aaaaaaaa-bbbb-cccc-dddd-eeeeeeeeeeee' and policy set \
             id '11111111-2222-3333-4444-555555555555"
                .to_owned()
        )
    );
}

#[test]
fn a_policy_that_is_not_there_is_not_replaced() {
    let exchange = admin::replace_policy_in_policy_set(SET, OLD, policy(&[]), at(1))
        .resume(Event::Done, at(2))
        .resume(Event::Replied(StoreReply::FoundPolicy(None)), at(3));
    assert!(matches!(exchange.action(), Action::Respond));
    let (status, message, _) = expected(exchange);
    assert_eq!((status, message.as_str()), (404, "Policy set or policy not found"));
}

#[test]
fn a_policy_set_that_is_not_there_is_not_edited() {
    let edits = [
        admin::add_policy_to_policy_set(SET, policy(&[]), at(1)),
        admin::delete_policy_set(SET, at(1)),
    ];
    for edit in edits {
        let exchange = edit
            .resume(Event::Done, at(2))
            .resume(Event::Replied(StoreReply::FoundPolicySet(None)), at(3));
        assert!(matches!(exchange.action(), Action::Respond));
        assert_eq!(
            expected(exchange),
            (
                404,
                "Policy set not found".to_owned(),
                "Unable to find policy set with id '11111111-2222-3333-4444-555555555555'"
                    .to_owned()
            )
        );
    }
}

/// A store with some policy sets, of which it can look one up or delete one.
fn delete_from(policy_sets: &mut Vec<Uuid>, id: Uuid) -> (Exchange, usize) {
    let mut exchange = admin::delete_policy_set(id, at(1));
    let mut logged = 0;
    loop {
        let event = match exchange.action() {
            Action::Call { scope: _, call: StoreCall::GetPolicySetWithPolicies { id } } => {
                if policy_sets.contains(&id) {
                    Event::Replied(found_set())
                } else {
                    Event::Replied(StoreReply::FoundPolicySet(None))
                }
            }
            Action::Call { scope: _, call: StoreCall::DeletePolicySet { id } } => {
                policy_sets.retain(|other| *other != id);
                Event::Replied(StoreReply::Done)
            }
            Action::Call { .. } => panic!("another call"),
            Action::Respond => break,
            Action::LogEvent { .. } => {
                logged += 1;
                Event::Done
            }
            _ => Event::Done,
        };
        exchange = exchange.resume(event, at(2));
    }
    (exchange, logged)
}

#[test]
fn a_deleted_policy_set_cannot_be_deleted_again() {
    let mut policy_sets = vec![NEW, SET];
    let (exchange, logged) = delete_from(&mut policy_sets, SET);
    assert_eq!(exchange.into_outcome().unwrap().status, 204);
    assert_eq!(logged, 1);
    assert_eq!(policy_sets, vec![NEW]);
    let (exchange, logged) = delete_from(&mut policy_sets, SET);
    assert_eq!(expected(exchange).0, 404);
    assert_eq!(logged, 0);
    assert_eq!(policy_sets, vec![NEW]);
}

#[test]
fn a_refused_look_up_ends_the_removal() {
    let error = AppError::unexpected("reading a policy", "gone".to_owned());
    let exchange = admin::delete_policy_from_policy_set(SET, OLD, at(1)).resume(Event::Done, at(2));
    assert!(!exchange.answered_by(&Event::Done));
    assert!(!exchange.answered_by(&failed("gone")));
    assert!(!exchange.answered_by(&Event::Replied(StoreReply::Done)));
    assert!(exchange.answered_by(&Event::Replied(StoreReply::FoundPolicy(None))));
    let exchange = exchange.resume(Event::Refused(error), at(3));
    assert!(matches!(exchange.action(), Action::Respond));
    assert_eq!(unexpected(exchange), ("reading a policy".to_owned(), "gone".to_owned()));
}

#[test]
fn a_failed_record_is_not_committed() {
    let edits = [
        admin::add_policy_to_policy_set(SET, policy(&[]), at(1)),
        admin::replace_policy_in_policy_set(SET, OLD, policy(&[]), at(1)),
    ];
    for edit in edits {
        let exchange = advanced(edit, 3, StoreReply::Written(model(NEW)));
        assert!(matches!(exchange.action(), Action::LogEvent { .. }));
        let exchange = exchange.resume(failed("gone"), at(2));
        assert!(matches!(exchange.action(), Action::Respond));
        assert!(exchange.into_outcome().is_err());
    }
}

#[test]
fn the_parties_of_a_template_come_policy_after_policy() {
    let body = InsertPolicySetTemplate {
        name: "template".to_owned(),
        description: None,
        access_subject: None,
        policy_issuer: None,
        policies: vec![template_policy(&["A", "B"]), template_policy(&[]), template_policy(&["C"])],
    };
    let mut exchange = admin::insert_policy_set_template(body, at(1));
    for name in ["A", "B", "C"] {
        assert_eq!(party(&exchange), (1, name.to_owned()));
        exchange = exchange.resume(Event::Done, at(1));
    }
    assert!(matches!(
        exchange.action(),
        Action::Call { scope: Scope::Connection, call: StoreCall::InsertPolicySetTemplate { .. } }
    ));
}

#[test]
fn a_rejected_party_ends_the_request() {
    let exchange = admin::add_policy_to_policy_set(SET, policy(&["A", "NL.B", "C"]), at(1))
        .resume(Event::Done, at(2))
        .resume(failed("NotActive"), at(3));
    assert!(matches!(exchange.action(), Action::Respond));
    assert!(!exchange.answered_by(&Event::Done));
    assert_eq!(
        expected(exchange),
        (
            400,
            "Unable to verify service provider 'NL.B' as valid iSHARE party".to_owned(),
            "NotActive".to_owned()
        )
    );
}

#[test]
fn a_missing_policy_is_not_found() {
    let exchange = admin::get_policy(SET, NEW, at(1));
    assert!(matches!(
        exchange.action(),
        Action::Call {
            scope: Scope::Connection,
            call: StoreCall::GetPolicy { policy_set_id: SET, policy_id: NEW },
        }
    ));
    let exchange = exchange.resume(Event::Replied(StoreReply::FoundPolicy(None)), at(2));
    assert_eq!(
        expected(exchange),
        (
            404,
            "Can't find policy".to_owned(),
            "Unable to find policy with id '67e55044-10b1-426f-9247-bb680e5fe0c8' and policy set \
             id '11111111-2222-3333-4444-555555555555"
                .to_owned()
        )
    );
}

#[test]
fn a_policy_that_is_found_is_shown() {
    let reply = StoreReply::FoundPolicy(Some(model(NEW)));
    let exchange = admin::get_policy(SET, NEW, at(1)).resume(Event::Replied(reply), at(2));
    let response = exchange.into_outcome().unwrap();
    assert_eq!(response.status, 200);
    assert!(matches!(response.body, ResponseBody::Policy(p) if p.document.text == "a policy"));
}

#[test]
fn a_policy_set_is_shown_or_not_found() {
    let exchange = admin::get_policy_set(SET, at(1));
    assert!(matches!(
        exchange.action(),
        Action::Call {
            scope: Scope::Connection,
            call: StoreCall::GetPolicySetWithPolicies { id: SET },
        }
    ));
    let exchange = exchange.resume(Event::Replied(StoreReply::FoundPolicySet(None)), at(2));
    assert_eq!(
        expected(exchange),
        (404, "Can't find policy set".to_owned(), "Can't find policy set".to_owned())
    );

    let row = MatchingPolicySetRow { document: Document { text: "a set".to_owned() } };
    let reply = StoreReply::FoundPolicySet(Some(row));
    let exchange = admin::get_policy_set(SET, at(1)).resume(Event::Replied(reply), at(2));
    let response = exchange.into_outcome().unwrap();
    assert_eq!(response.status, 200);
    assert!(matches!(response.body, ResponseBody::PolicySet(r) if r.document.text == "a set"));
}

#[test]
fn failures_of_an_addition() {
    let start = || admin::add_policy_to_policy_set(SET, policy(&[]), at(1));
    let written = || StoreReply::Written(model(NEW));
    let cases = [
        (0, "error starting db connection"),
        (3, "error logging policy added event"),
        (4, "error commiting transaction to db"),
    ];
    for (steps, context) in cases {
        let exchange = advanced(start(), steps, written()).resume(failed("gone"), at(2));
        assert_eq!(unexpected(exchange), (context.to_owned(), "gone".to_owned()));
    }
}

#[test]
fn failures_of_a_replacement() {
    let start = || admin::replace_policy_in_policy_set(SET, OLD, policy(&[]), at(1));
    let written = || StoreReply::Written(model(NEW));
    let cases = [
        (0, "error starting db transaction"),
        (3, "Error logging policy set edited event"),
        (4, "error commiting transaction to db"),
    ];
    for (steps, context) in cases {
        let exchange = advanced(start(), steps, written()).resume(failed("gone"), at(2));
        assert_eq!(unexpected(exchange), (context.to_owned(), "gone".to_owned()));
    }
}

#[test]
fn failures_of_deletions() {
    let cases = [
        (0, "error starting db transaction", "error starting db transaction"),
        (3, "Error logging policy set deleted event", "Error logging policy set edited event"),
        (4, "error commiting transaction to db", "error commiting transaction to db"),
    ];
    for (steps, of_set, of_policy) in cases {
        let exchange = advanced(admin::delete_policy_set(SET, at(1)), steps, StoreReply::Done);
        assert_eq!(unexpected(exchange.resume(failed("gone"), at(2))).0, of_set);
        let exchange = admin::delete_policy_from_policy_set(SET, OLD, at(1));
        let exchange = advanced(exchange, steps, StoreReply::Done);
        assert_eq!(unexpected(exchange.resume(failed("gone"), at(2))).0, of_policy);
    }
}

#[test]
fn an_error_of_the_store_passes_through() {
    let error = AppError::Expected(ExpectedError {
        status_code: 404,
        message: "Policy set not found".to_owned(),
        reason: "no row".to_owned(),
        metadata: None,
    });
    let exchange = admin::delete_policy_set(SET, at(1))
        .resume(Event::Done, at(2))
        .resume(Event::Replied(found_set()), at(2))
        .resume(Event::Refused(error), at(3));
    assert_eq!(
        expected(exchange),
        (404, "Policy set not found".to_owned(), "no row".to_owned())
    );
}

#[test]
fn a_failed_list_says_what_was_tried() {
    let query = GetPolicySetsQuery {
        access_subject: Some("s".to_owned()),
        policy_issuer: Some("i".to_owned()),
        q: Some("q".to_owned()),
        limit: Some(7),
        skip: Some(3),
    };
    let exchange = admin::get_all_policy_sets(query, at(1));
    match exchange.action() {
        Action::Call {
            scope,
            call:
                StoreCall::GetPolicySetsWithPolicies { access_subject, policy_issuer, q, skip, limit },
        } => {
            assert_eq!(scope, Scope::Connection);
            assert_eq!(access_subject, &Some("s".to_owned()));
            assert_eq!(policy_issuer, &Some("i".to_owned()));
            assert_eq!(q, &Some("q".to_owned()));
            assert_eq!((skip, limit), (Some(3), Some(7)));
        }
        _ => panic!("no list of policy sets"),
    }
    assert_eq!(
        unexpected(exchange.resume(failed("gone"), at(2))),
        ("Error getting policicy sets".to_owned(), "gone".to_owned())
    );
}

#[test]
fn only_fitting_events_answer() {
    let add = admin::add_policy_to_policy_set(SET, policy(&["A"]), at(1));
    assert!(add.answered_by(&Event::Done));
    assert!(add.answered_by(&failed("gone")));
    assert!(!add.answered_by(&Event::Replied(StoreReply::Done)));

    let call = advanced(admin::delete_policy_set(SET, at(1)), 2, StoreReply::Done);
    assert!(call.answered_by(&Event::Replied(StoreReply::Done)));
    assert!(!call.answered_by(&Event::Replied(StoreReply::Inserted(NEW))));
    assert!(!call.answered_by(&Event::Done));
    assert!(!call.answered_by(&failed("gone")));
}

#[test]
fn the_clock_does_not_change_the_answer() {
    let outcome = |seconds: i64| {
        let exchange = admin::add_policy_to_policy_set(SET, policy(&["A"]), at(seconds))
            .resume(failed("NotActive"), at(seconds + 5));
        expected(exchange)
    };
    assert_eq!(outcome(1), outcome(1_000_000));
}

#[test]
fn conclusions_of_insertions() {
    let template = Request::InsertPolicySetTemplate {
        body: InsertPolicySetTemplate {
            name: "template".to_owned(),
            description: None,
            access_subject: None,
            policy_issuer: None,
            policies: vec![],
        },
    };
    let response = conclude(&template, StoreReply::Inserted(NEW)).unwrap();
    assert!(matches!(response.body, ResponseBody::TemplateInserted(r) if r.uuid == NEW));
    let template = Request::DeletePolicySetTemplate { id: NEW };
    assert_eq!(conclude(&template, StoreReply::Done).unwrap().status, 200);
}
