//! The administration endpoints, with a store that answers from memory.

use authorization_registry::error::AppError;
use authorization_registry::exchange::Exchange;
use authorization_registry::ids::Uuid;
use authorization_registry::policy::{
    Document, Effect, Environment, GetPolicySetsQuery, InsertPolicySetTemplate,
    InsertPolicySetWithPolicies, MatchingPolicySetRow, Policy, PolicySetTarget,
    PolicySetsWithPagination, PolicyTarget, Resource, Rule, RuleTarget, TemplatePolicy,
};
use authorization_registry::request::{Action, Event, Response, ResponseBody, StoreCall, StoreReply};
use authorization_registry::routes::admin;
use authorization_registry::time::{TimeProvider, Timestamp};

struct FakeTimeProvider;

impl TimeProvider for FakeTimeProvider {
    fn now(&self) -> Timestamp {
        Timestamp { seconds: 1715247205, nanos: 0 }
    }
}

fn now() -> Timestamp {
    FakeTimeProvider.now()
}

struct Fixture {
    name: &'static str,
    access_subject: &'static str,
    policy_issuer: &'static str,
    policy: &'static str,
}

fn fixture(name: &'static str) -> Fixture {
    match name {
        "./fixtures/policy_set5.json" => Fixture {
            name,
            access_subject: "NL.55555",
            policy_issuer: "NL.44444",
            policy: "Cheese",
        },
        "./fixtures/policy_set6.json" => Fixture {
            name,
            access_subject: "NL.66666",
            policy_issuer: "NL.CONSUME_PRODUCER",
            policy: "Amazinggg CrazyID CrazyATT CrazySP",
        },
        "./fixtures/policy_set7.json" => Fixture {
            name,
            access_subject: "NL.CONSUME_TOO_MUCH",
            policy_issuer: "NL.77777",
            policy: "Cheese",
        },
        _ => Fixture { name, access_subject: "NL.44444", policy_issuer: "NL.11111", policy: "Bread" },
    }
}

/// What the test store keeps: the fixtures of a test, and the calls it got.
struct Store {
    rows: Vec<Fixture>,
    calls: Vec<String>,
}

fn store(names: &[&'static str]) -> Store {
    Store { rows: names.iter().map(|name| fixture(name)).collect(), calls: vec![] }
}

const INSERTED: Uuid = Uuid { bits: 0xa1a2a3a4_b1b2_c1c2_d1d2_d3d4d5d6d7d8 };

impl Store {
    fn call(&mut self, call: &StoreCall) -> Event {
        match call {
            StoreCall::InsertPolicySetTemplate { body } => {
                self.calls.push(format!("template {} {:?}", body.name, body.description));
                Event::Replied(StoreReply::Inserted(INSERTED))
            }
            StoreCall::DeletePolicyTemplate { id } => {
                self.calls.push(format!("delete template {}", id.to_string()));
                Event::Replied(StoreReply::Done)
            }
            StoreCall::InsertPolicySetWithPoliciesAdmin { now, body } => {
                self.calls.push(format!("policy set {} {}", now.seconds, body.policy_issuer));
                Event::Replied(StoreReply::Inserted(INSERTED))
            }
            StoreCall::GetPolicySetsWithPolicies { access_subject, policy_issuer, q, skip, limit } => {
                let data: Vec<MatchingPolicySetRow> = self
                    .rows
                    .iter()
                    .filter(|r| access_subject.as_ref().map_or(true, |s| s == r.access_subject))
                    .filter(|r| policy_issuer.as_ref().map_or(true, |s| s == r.policy_issuer))
                    .filter(|r| {
                        q.as_ref().map_or(true, |s| {
                            r.access_subject.contains(s.as_str())
                                || r.policy_issuer.contains(s.as_str())
                                || r.policy.contains(s.as_str())
                        })
                    })
                    .skip(skip.unwrap_or(0) as usize)
                    .take(limit.unwrap_or(u32::MAX) as usize)
                    .map(|r| MatchingPolicySetRow { document: Document { text: r.name.to_owned() } })
                    .collect();
                Event::Replied(StoreReply::PolicySets(PolicySetsWithPagination {
                    data,
                    pagination: Document { text: "{}".to_owned() },
                }))
            }
            _ => panic!("the store does not know this call"),
        }
    }
}

fn drive(mut exchange: Exchange, store: &mut Store) -> Result<Response, AppError> {
    loop {
        let event = match exchange.action() {
            Action::ValidateParty { now, party } => {
                store.calls.push(format!("party {} {}", now.seconds, party));
                Event::Done
            }
            Action::Call { scope: _, call } => store.call(&call),
            Action::Respond => return exchange.into_outcome(),
            _ => Event::Done,
        };
        assert!(exchange.answered_by(&event));
        exchange = exchange.resume(event, now());
    }
}

fn strings(list: &[&str]) -> Vec<String> {
    list.iter().map(|s| s.to_string()).collect()
}

fn template(description: Option<&str>) -> InsertPolicySetTemplate {
    InsertPolicySetTemplate {
        name: "Usual dexspace data consumer stuff".to_owned(),
        description: description.map(|d| d.to_owned()),
        access_subject: Some("hello".to_owned()),
        policy_issuer: Some("hello again".to_owned()),
        policies: vec![TemplatePolicy {
            resource_type: "Fishes".to_owned(),
            identifiers: strings(&["*"]),
            attributes: strings(&["*"]),
            actions: strings(&["Read", "Delete", "Create", "Edit"]),
            service_providers: strings(&["NL.EORI.LIFEELEC4DMI"]),
            rules: vec![Rule { effect: Effect::Permit, target: None }],
        }],
    }
}

fn query() -> GetPolicySetsQuery {
    GetPolicySetsQuery { access_subject: None, policy_issuer: None, q: None, limit: None, skip: None }
}

fn list(query: GetPolicySetsQuery, names: &[&'static str]) -> PolicySetsWithPagination {
    let response = drive(admin::get_all_policy_sets(query, now()), &mut store(names)).unwrap();
    assert_eq!(response.status, 200);
    match response.body {
        ResponseBody::PolicySets(body) => body,
        _ => panic!("not a list of policy sets"),
    }
}

const FIRST_FIVE: [&str; 5] = [
    "./fixtures/policy_set1.json",
    "./fixtures/policy_set2.json",
    "./fixtures/policy_set3.json",
    "./fixtures/policy_set4.json",
    "./fixtures/policy_set5.json",
];

const FIRST_SIX: [&str; 6] = [
    "./fixtures/policy_set1.json",
    "./fixtures/policy_set2.json",
    "./fixtures/policy_set3.json",
    "./fixtures/policy_set4.json",
    "./fixtures/policy_set5.json",
    "./fixtures/policy_set6.json",
];

#[test]
fn test_insert_policy_set_template() {
    let mut store = store(&[]);
    let response =
        drive(admin::insert_policy_set_template(template(None), now()), &mut store).unwrap();

    assert_eq!(response.status, 200);
    assert!(matches!(response.body, ResponseBody::TemplateInserted(r) if r.uuid == INSERTED));
    assert_eq!(
        store.calls,
        vec![
            "party 1715247205 NL.EORI.LIFEELEC4DMI".to_owned(),
            "template Usual dexspace data consumer stuff None".to_owned(),
        ]
    );
}

#[test]
fn test_insert_policy_set_template_with_description() {
    let mut store = store(&[]);
    let body = template(Some("this is a nice pt"));
    let response = drive(admin::insert_policy_set_template(body, now()), &mut store).unwrap();

    assert_eq!(response.status, 200);
    assert_eq!(
        store.calls[1],
        "template Usual dexspace data consumer stuff Some(\"this is a nice pt\")"
    );
}

#[test]
fn test_insert_delete_policy_set_template() {
    let mut store = store(&[]);
    let inserted =
        drive(admin::insert_policy_set_template(template(None), now()), &mut store).unwrap();
    let uuid = match inserted.body {
        ResponseBody::TemplateInserted(body) => body.uuid,
        _ => panic!("not an inserted template"),
    };

    let response = drive(admin::delete_policy_set_template(uuid, now()), &mut store).unwrap();

    assert_eq!(response.status, 200);
    assert!(matches!(response.body, ResponseBody::Empty));
    assert_eq!(store.calls[2], "delete template a1a2a3a4-b1b2-c1c2-d1d2-d3d4d5d6d7d8");
}

#[test]
fn test_get_policy_sets() {
    let body = list(query(), &FIRST_FIVE);
    assert_eq!(body.data.len(), 5);
    assert_eq!(body.data[4].document.text, "./fixtures/policy_set5.json");
    assert_eq!(body.pagination.text, "{}");
}

#[test]
fn test_get_policy_sets_limit() {
    let body = list(GetPolicySetsQuery { limit: Some(2), ..query() }, &FIRST_FIVE);
    assert_eq!(body.data.len(), 2);
    assert_eq!(body.data[0].document.text, "./fixtures/policy_set1.json");
}

#[test]
fn test_get_policy_sets_skip() {
    let body = list(GetPolicySetsQuery { skip: Some(3), ..query() }, &FIRST_FIVE);
    assert_eq!(body.data.len(), 2);
    assert_eq!(body.data[0].document.text, "./fixtures/policy_set4.json");
}

#[test]
fn test_get_policy_sets_skip_limit() {
    let body = list(GetPolicySetsQuery { skip: Some(2), limit: Some(2), ..query() }, &FIRST_FIVE);
    assert_eq!(body.data.len(), 2);
    assert_eq!(body.data[0].document.text, "./fixtures/policy_set3.json");
}

#[test]
fn test_get_policy_sets_filter_as() {
    let query = GetPolicySetsQuery { access_subject: Some("NL.44444".to_owned()), ..query() };
    assert_eq!(list(query, &FIRST_FIVE).data.len(), 4);
}

#[test]
fn test_get_policy_sets_query_as() {
    let query = GetPolicySetsQuery { q: Some("NL.CONSUME".to_owned()), ..query() };
    let names = [
        "./fixtures/policy_set1.json",
        "./fixtures/policy_set2.json",
        "./fixtures/policy_set3.json",
        "./fixtures/policy_set5.json",
        "./fixtures/policy_set7.json",
    ];
    assert_eq!(list(query, &names).data.len(), 1);
}

#[test]
fn test_get_policy_sets_query_pi() {
    let query = GetPolicySetsQuery { q: Some("NL.CONSUME".to_owned()), ..query() };
    let names = [
        "./fixtures/policy_set1.json",
        "./fixtures/policy_set2.json",
        "./fixtures/policy_set3.json",
        "./fixtures/policy_set5.json",
        "./fixtures/policy_set6.json",
    ];
    assert_eq!(list(query, &names).data.len(), 1);
}

#[test]
fn test_get_policy_sets_filter_resource_type() {
    let query = GetPolicySetsQuery { q: Some("Amazinggg".to_owned()), ..query() };
    let names = [
        "./fixtures/policy_set1.json",
        "./fixtures/policy_set2.json",
        "./fixtures/policy_set3.json",
        "./fixtures/policy_set5.json",
        "./fixtures/policy_set6.json",
    ];
    assert_eq!(list(query, &names).data.len(), 1);
}

#[test]
fn test_get_policy_sets_filter_identifier() {
    let query = GetPolicySetsQuery { q: Some("CrazyID".to_owned()), ..query() };
    assert_eq!(list(query, &FIRST_SIX).data.len(), 1);
}

#[test]
fn test_get_policy_sets_filter_att() {
    let query = GetPolicySetsQuery { q: Some("CrazyATT".to_owned()), ..query() };
    assert_eq!(list(query, &FIRST_SIX).data.len(), 1);
}

#[test]
fn test_get_policy_sets_filter_sp() {
    let query = GetPolicySetsQuery { q: Some("CrazyATT".to_owned()), ..query() };
    assert_eq!(list(query, &FIRST_SIX).data.len(), 1);
}

#[test]
fn test_get_policy_sets_filter_pi() {
    let query = GetPolicySetsQuery { policy_issuer: Some("NL.44444".to_owned()), ..query() };
    assert_eq!(list(query, &FIRST_FIVE).data.len(), 1);
}

#[test]
fn test_insert_policy_set() {
    let body = InsertPolicySetWithPolicies {
        policies: vec![
            Policy {
                target: PolicyTarget {
                    resource: Resource {
                        resource_type: "test-iden2".to_owned(),
                        identifiers: strings(&["test", "test-2"]),
                        attributes: strings(&["*"]),
                    },
                    actions: strings(&["Read"]),
                    environment: Environment { service_providers: strings(&["asdf"]) },
                },
                rules: vec![Rule { effect: Effect::Permit, target: None }],
            },
            Policy {
                target: PolicyTarget {
                    resource: Resource {
                        resource_type: "test-iden".to_owned(),
                        identifiers: strings(&["test4", "test-5"]),
                        attributes: strings(&["*"]),
                    },
                    actions: strings(&["*"]),
                    environment: Environment { service_providers: strings(&["fffd"]) },
                },
                rules: vec![
                    Rule { effect: Effect::Permit, target: None },
                    Rule {
                        effect: Effect::Deny,
                        target: Some(RuleTarget {
                            resource: Resource {
                                resource_type: "test-iden".to_owned(),
                                identifiers: strings(&["*"]),
                                attributes: strings(&["zinger"]),
                            },
                            actions: strings(&["*"]),
                        }),
                    },
                ],
            },
        ],
        target: PolicySetTarget { access_subject: "sadfasdf".to_owned() },
        policy_issuer: "sss".to_owned(),
        licences: vec![],
        max_delegation_depth: 2,
    };

    let mut store = store(&[]);
    let response = drive(admin::insert_policy_set(body, now()), &mut store).unwrap();

    assert_eq!(response.status, 200);
    assert!(matches!(response.body, ResponseBody::PolicySetInserted(r) if r.uuid == INSERTED));
    assert_eq!(store.calls, vec!["policy set 1715247205 sss".to_owned()]);
}
