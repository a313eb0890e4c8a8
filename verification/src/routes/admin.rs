//! The administration endpoints: where each of them is found, what stands
//! before them, and how a request to each of them begins.

use crate::access;
use crate::access::Caller;
use crate::error::{AppError, AppErrorView};
use crate::exchange::Exchange;
use crate::ids::Uuid;
use crate::model;
use crate::policy::{
    GetPolicySetsQuery, InsertPolicySetTemplate, InsertPolicySetWithPolicies, Policy,
};
use crate::request::Request;
use crate::time::Timestamp;
use vstd::prelude::*;

verus! {

#[derive(Clone, Copy, Debug, PartialEq, Eq, Structural)]
pub enum Method {
    Get,
    Post,
    Put,
    Delete,
}

#[derive(Clone, Copy, Debug, PartialEq, Eq, Structural)]
pub enum Endpoint {
    DeletePolicySetTemplate,
    InsertPolicySetTemplate,
    InsertPolicySet,
    GetAllPolicySets,
    GetPolicySet,
    DeletePolicySet,
    AddPolicyToPolicySet,
    DeletePolicyFromPolicySet,
    ReplacePolicyInPolicySet,
    GetPolicy,
}

/// Where an endpoint is found. A part of the path that starts with a colon
/// stands for any text.
#[derive(Clone, Copy, Debug)]
pub struct Route {
    pub path: &'static str,
    pub method: Method,
    pub endpoint: Endpoint,
}

/// What stands before an endpoint.
#[derive(Clone, Copy, Debug)]
pub enum Layer {
    /// Finds out who the human behind the token is.
    ExtractHuman,
    /// Finds out which role the token gives.
    ExtractRole,
    /// Lets no one pass without the role.
    RequireRole(&'static str),
    /// Makes the state of the registry available.
    ShareState,
}

/// The administration endpoints, and what stands before all of them: each
/// layer stands before those that come earlier in the list.
#[derive(Debug)]
pub struct AdminRoutes {
    pub routes: Vec<Route>,
    pub layers: Vec<Layer>,
}

/// The path of an endpoint, below that of the administration endpoints.
pub open spec fn path_of(endpoint: Endpoint) -> Seq<char> {
    match endpoint {
        Endpoint::DeletePolicySetTemplate => "/policy-set-template/:id"@,
        Endpoint::InsertPolicySetTemplate => "/policy-set-template"@,
        Endpoint::InsertPolicySet | Endpoint::GetAllPolicySets => "/policy-set"@,
        Endpoint::GetPolicySet | Endpoint::DeletePolicySet => "/policy-set/:id"@,
        Endpoint::AddPolicyToPolicySet => "/policy-set/:id/policy"@,
        Endpoint::DeletePolicyFromPolicySet
        | Endpoint::ReplacePolicyInPolicySet
        | Endpoint::GetPolicy => "/policy-set/:id/policy/:policy_id"@,
    }
}

/// The method of an endpoint.
pub open spec fn method_of(endpoint: Endpoint) -> Method {
    match endpoint {
        Endpoint::GetAllPolicySets | Endpoint::GetPolicySet | Endpoint::GetPolicy => Method::Get,
        Endpoint::InsertPolicySetTemplate
        | Endpoint::InsertPolicySet
        | Endpoint::AddPolicyToPolicySet => Method::Post,
        Endpoint::ReplacePolicyInPolicySet => Method::Put,
        Endpoint::DeletePolicySetTemplate
        | Endpoint::DeletePolicySet
        | Endpoint::DeletePolicyFromPolicySet => Method::Delete,
    }
}

/// The endpoints, in the order in which they are listed.
pub open spec fn endpoints() -> Seq<Endpoint> {
    seq![
        Endpoint::DeletePolicySetTemplate,
        Endpoint::InsertPolicySetTemplate,
        Endpoint::InsertPolicySet,
        Endpoint::GetAllPolicySets,
        Endpoint::GetPolicySet,
        Endpoint::DeletePolicySet,
        Endpoint::AddPolicyToPolicySet,
        Endpoint::DeletePolicyFromPolicySet,
        Endpoint::ReplacePolicyInPolicySet,
        Endpoint::GetPolicy,
    ]
}

/// Whether these are the layers before the administration endpoints.
pub open spec fn are_admin_layers(layers: Seq<Layer>) -> bool {
    &&& layers.len() == 4
    &&& layers[0] is ExtractHuman
    &&& layers[1] is ExtractRole
    &&& layers[2] matches Layer::RequireRole(role)
    &&& role@ == "dexspace_admin"@
    &&& layers[3] is ShareState
}

/// Why a caller does not get past the layers to an endpoint, or `None` for one
/// who does. The last layer of the list is the first on the way.
pub open spec fn refusal(layers: Seq<Layer>, caller: Caller) -> Option<AppErrorView>
    decreases layers.len(),
{
    if layers.len() == 0 {
        None
    } else {
        match layers.last() {
            Layer::RequireRole(role) if !access::has_role(caller, role@) => Some(access::unauthorized(role@)),
            _ => refusal(layers.drop_last(), caller),
        }
    }
}

impl AdminRoutes {
    /// Lets a caller through to the endpoints, or gives the answer to one who is
    /// not let through.
    pub fn let_through(&self, caller: &Caller) -> (passed: Result<(), AppError>)
        ensures
            passed is Ok <==> refusal(self.layers@, *caller) is None,
            passed matches Err(error) ==> refusal(self.layers@, *caller) == Some(error@),
    {
        let mut i: usize = self.layers.len();
        assert(self.layers@.take(i as int) =~= self.layers@);
        while i > 0
            invariant
                i <= self.layers@.len(),
                refusal(self.layers@, *caller) == refusal(self.layers@.take(i as int), *caller),
            decreases i,
        {
            i = i - 1;
            assert(self.layers@.take(i + 1).drop_last() =~= self.layers@.take(i as int));
            if let Layer::RequireRole(role) = self.layers[i] {
                match caller.require_role(role) {
                    Ok(()) => {},
                    Err(error) => {
                        return Err(error);
                    },
                }
            }
        }
        Ok(())
    }
}

/// No one reaches an administration endpoint but a human whose roles are known
/// to hold `dexspace_admin`. A caller without a valid token, a machine and a
/// human without that role are all told that they are not authorized.
pub proof fn law_only_administrators_are_let_through(layers: Seq<Layer>, caller: Caller)
    requires
        are_admin_layers(layers),
    ensures
        refusal(layers, caller) == if access::has_role(caller, "dexspace_admin"@) {
            None
        } else {
            Some(access::unauthorized("dexspace_admin"@))
        },
        refusal(layers, caller) is None ==> caller is Human,
        refusal(layers, caller) is None <==> match caller {
            Caller::Human { roles } => exists|i: int|
                0 <= i < roles@.len() && (#[trigger] roles@[i])@ == "dexspace_admin"@,
            _ => false,
        },
        refusal(layers, caller) matches Some(error) ==> error == (AppErrorView::Expected {
            status_code: 401,
            message: "Unauthorized"@,
            reason: "The role '"@ + "dexspace_admin"@ + "' is required"@,
            metadata: None,
        }),
{
    reveal_with_fuel(refusal, 5);
    access::law_a_role_is_one_of_the_roles(caller, "dexspace_admin"@);
}

/// The administration endpoints with what stands before them.
pub fn get_admin_routes() -> (admin: AdminRoutes)
    ensures
        admin.routes@.len() == endpoints().len(),
        forall|i: int|
            #![trigger admin.routes@[i]]
            0 <= i < admin.routes@.len() ==> {
                &&& admin.routes@[i].endpoint == endpoints()[i]
                &&& admin.routes@[i].path@ == path_of(endpoints()[i])
                &&& admin.routes@[i].method == method_of(endpoints()[i])
            },
        are_admin_layers(admin.layers@),
        admin.layers@.len() == 4,
        admin.layers@[0] is ExtractHuman,
        admin.layers@[1] is ExtractRole,
        admin.layers@[2] matches Layer::RequireRole(role) && role@ == "dexspace_admin"@,
        admin.layers@[3] is ShareState,
{
    AdminRoutes {
        routes: vec![
            Route {
                path: "/policy-set-template/:id",
                method: Method::Delete,
                endpoint: Endpoint::DeletePolicySetTemplate,
            },
            Route {
                path: "/policy-set-template",
                method: Method::Post,
                endpoint: Endpoint::InsertPolicySetTemplate,
            },
            Route {
                path: "/policy-set",
                method: Method::Post,
                endpoint: Endpoint::InsertPolicySet,
            },
            Route {
                path: "/policy-set",
                method: Method::Get,
                endpoint: Endpoint::GetAllPolicySets,
            },
            Route {
                path: "/policy-set/:id",
                method: Method::Get,
                endpoint: Endpoint::GetPolicySet,
            },
            Route {
                path: "/policy-set/:id",
                method: Method::Delete,
                endpoint: Endpoint::DeletePolicySet,
            },
            Route {
                path: "/policy-set/:id/policy",
                method: Method::Post,
                endpoint: Endpoint::AddPolicyToPolicySet,
            },
            Route {
                path: "/policy-set/:id/policy/:policy_id",
                method: Method::Delete,
                endpoint: Endpoint::DeletePolicyFromPolicySet,
            },
            Route {
                path: "/policy-set/:id/policy/:policy_id",
                method: Method::Put,
                endpoint: Endpoint::ReplacePolicyInPolicySet,
            },
            Route {
                path: "/policy-set/:id/policy/:policy_id",
                method: Method::Get,
                endpoint: Endpoint::GetPolicy,
            },
        ],
        layers: vec![
            Layer::ExtractHuman,
            Layer::ExtractRole,
            Layer::RequireRole("dexspace_admin"),
            Layer::ShareState,
        ],
    }
}

/// Where each endpoint is found: what is created is posted, what is replaced is
/// put, and each path names what the endpoint is about.
pub proof fn law_where_the_endpoints_are_found(endpoint: Endpoint)
    ensures
        (path_of(endpoint), method_of(endpoint)) == match endpoint {
            Endpoint::InsertPolicySetTemplate => ("/policy-set-template"@, Method::Post),
            Endpoint::DeletePolicySetTemplate => ("/policy-set-template/:id"@, Method::Delete),
            Endpoint::GetAllPolicySets => ("/policy-set"@, Method::Get),
            Endpoint::InsertPolicySet => ("/policy-set"@, Method::Post),
            Endpoint::GetPolicySet => ("/policy-set/:id"@, Method::Get),
            Endpoint::DeletePolicySet => ("/policy-set/:id"@, Method::Delete),
            Endpoint::AddPolicyToPolicySet => ("/policy-set/:id/policy"@, Method::Post),
            Endpoint::GetPolicy => ("/policy-set/:id/policy/:policy_id"@, Method::Get),
            Endpoint::ReplacePolicyInPolicySet => (
                "/policy-set/:id/policy/:policy_id"@,
                Method::Put,
            ),
            Endpoint::DeletePolicyFromPolicySet => (
                "/policy-set/:id/policy/:policy_id"@,
                Method::Delete,
            ),
        },
{
}

/// No two endpoints share a path and a method.
pub proof fn law_no_two_endpoints_clash(a: Endpoint, b: Endpoint)
    requires
        path_of(a) == path_of(b),
        method_of(a) == method_of(b),
    ensures
        a == b,
{
    reveal_strlit("/policy-set-template/:id");
    reveal_strlit("/policy-set-template");
    reveal_strlit("/policy-set");
    reveal_strlit("/policy-set/:id");
    reveal_strlit("/policy-set/:id/policy");
    reveal_strlit("/policy-set/:id/policy/:policy_id");
    assert("/policy-set-template/:id"@.len() == 24);
    assert("/policy-set-template"@.len() == 20);
    assert("/policy-set"@.len() == 11);
    assert("/policy-set/:id"@.len() == 15);
    assert("/policy-set/:id/policy"@.len() == 22);
    assert("/policy-set/:id/policy/:policy_id"@.len() == 33);
}

/// Every endpoint is listed, and none is listed twice.
pub proof fn law_every_endpoint_is_listed_once(endpoint: Endpoint)
    ensures
        endpoints().contains(endpoint),
        endpoints().no_duplicates(),
{
    let i: int = match endpoint {
        Endpoint::DeletePolicySetTemplate => 0,
        Endpoint::InsertPolicySetTemplate => 1,
        Endpoint::InsertPolicySet => 2,
        Endpoint::GetAllPolicySets => 3,
        Endpoint::GetPolicySet => 4,
        Endpoint::DeletePolicySet => 5,
        Endpoint::AddPolicyToPolicySet => 6,
        Endpoint::DeletePolicyFromPolicySet => 7,
        Endpoint::ReplacePolicyInPolicySet => 8,
        Endpoint::GetPolicy => 9,
    };
    assert(endpoints()[i] == endpoint);
}

/// The endpoint that a request is made to.
pub open spec fn endpoint_of(request: Request) -> Endpoint {
    match request {
        Request::DeletePolicySetTemplate { .. } => Endpoint::DeletePolicySetTemplate,
        Request::InsertPolicySetTemplate { .. } => Endpoint::InsertPolicySetTemplate,
        Request::GetPolicy { .. } => Endpoint::GetPolicy,
        Request::AddPolicyToPolicySet { .. } => Endpoint::AddPolicyToPolicySet,
        Request::ReplacePolicyInPolicySet { .. } => Endpoint::ReplacePolicyInPolicySet,
        Request::DeletePolicySet { .. } => Endpoint::DeletePolicySet,
        Request::DeletePolicyFromPolicySet { .. } => Endpoint::DeletePolicyFromPolicySet,
        Request::GetPolicySet { .. } => Endpoint::GetPolicySet,
        Request::InsertPolicySet { .. } => Endpoint::InsertPolicySet,
        Request::GetAllPolicySets { .. } => Endpoint::GetAllPolicySets,
    }
}

/// The requests that only look something up are those with the method for that.
pub proof fn law_looking_up_is_getting(request: Request)
    ensures
        model::is_read(request) <==> method_of(endpoint_of(request)) == Method::Get,
{
}

/// Begins the deletion of a policy set template.
pub fn delete_policy_set_template(id: Uuid, now: Timestamp) -> (exchange: Exchange)
    ensures
        exchange.wf(),
        exchange@ == model::started(Request::DeletePolicySetTemplate { id }, now),
{
    Exchange::start(Request::DeletePolicySetTemplate { id }, now)
}

/// Begins the creation of a policy set template.
pub fn insert_policy_set_template(
    body: InsertPolicySetTemplate,
    now: Timestamp,
) -> (exchange: Exchange)
    ensures
        exchange.wf(),
        exchange@ == model::started(Request::InsertPolicySetTemplate { body }, now),
{
    Exchange::start(Request::InsertPolicySetTemplate { body }, now)
}

/// Begins the look-up of a policy in a policy set.
pub fn get_policy(policy_set_id: Uuid, policy_id: Uuid, now: Timestamp) -> (exchange: Exchange)
    ensures
        exchange.wf(),
        exchange@ == model::started(Request::GetPolicy { policy_set_id, policy_id }, now),
{
    Exchange::start(Request::GetPolicy { policy_set_id, policy_id }, now)
}

/// Begins the addition of a policy to a policy set.
pub fn add_policy_to_policy_set(id: Uuid, body: Policy, now: Timestamp) -> (exchange: Exchange)
    ensures
        exchange.wf(),
        exchange@ == model::started(Request::AddPolicyToPolicySet { id, body }, now),
{
    Exchange::start(Request::AddPolicyToPolicySet { id, body }, now)
}

/// Begins the replacement of a policy in a policy set.
pub fn replace_policy_in_policy_set(
    policy_set_id: Uuid,
    policy_id: Uuid,
    body: Policy,
    now: Timestamp,
) -> (exchange: Exchange)
    ensures
        exchange.wf(),
        exchange@ == model::started(
            Request::ReplacePolicyInPolicySet { policy_set_id, policy_id, body },
            now,
        ),
{
    Exchange::start(Request::ReplacePolicyInPolicySet { policy_set_id, policy_id, body }, now)
}

/// Begins the deletion of a policy set.
pub fn delete_policy_set(id: Uuid, now: Timestamp) -> (exchange: Exchange)
    ensures
        exchange.wf(),
        exchange@ == model::started(Request::DeletePolicySet { id }, now),
{
    Exchange::start(Request::DeletePolicySet { id }, now)
}

/// Begins the deletion of a policy from a policy set.
pub fn delete_policy_from_policy_set(
    policy_set_id: Uuid,
    policy_id: Uuid,
    now: Timestamp,
) -> (exchange: Exchange)
    ensures
        exchange.wf(),
        exchange@ == model::started(
            Request::DeletePolicyFromPolicySet { policy_set_id, policy_id },
            now,
        ),
{
    Exchange::start(Request::DeletePolicyFromPolicySet { policy_set_id, policy_id }, now)
}

/// Begins the look-up of a policy set.
pub fn get_policy_set(id: Uuid, now: Timestamp) -> (exchange: Exchange)
    ensures
        exchange.wf(),
        exchange@ == model::started(Request::GetPolicySet { id }, now),
{
    Exchange::start(Request::GetPolicySet { id }, now)
}

/// Begins the creation of a policy set.
pub fn insert_policy_set(body: InsertPolicySetWithPolicies, now: Timestamp) -> (exchange: Exchange)
    ensures
        exchange.wf(),
        exchange@ == model::started(Request::InsertPolicySet { body }, now),
{
    Exchange::start(Request::InsertPolicySet { body }, now)
}

/// Begins a list of policy sets.
pub fn get_all_policy_sets(query: GetPolicySetsQuery, now: Timestamp) -> (exchange: Exchange)
    ensures
        exchange.wf(),
        exchange@ == model::started(Request::GetAllPolicySets { query }, now),
{
    Exchange::start(Request::GetAllPolicySets { query }, now)
}

} // verus!
