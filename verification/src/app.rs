//! How the registry is put together from its groups of routes.

use vstd::prelude::*;

verus! {

/// A group of routes.
#[derive(Clone, Copy, Debug, PartialEq, Eq, Structural)]
pub enum RouteGroup {
    Connect,
    Admin,
    Delegation,
    PolicySet,
    Capabilities,
    PolicySetTemplate,
    AuditLog,
    Config,
}

/// A group of routes, and the path below which it is found.
#[derive(Clone, Copy, Debug)]
pub struct Nest {
    pub path: &'static str,
    pub group: RouteGroup,
}

/// Which origins a browser may call the registry from.
#[derive(Clone, Copy, Debug, PartialEq, Eq, Structural)]
pub enum CorsPolicy {
    /// The registry says nothing about it, so that browsers keep to its own.
    SameOrigin,
    /// Any origin, with any method and any headers.
    Any,
}

/// The parts of the registry.
#[derive(Debug)]
pub struct AppLayout {
    pub nests: Vec<Nest>,
    /// Where the description of the endpoints can be browsed.
    pub swagger_ui_path: &'static str,
    /// Where the description of the endpoints itself is found.
    pub openapi_path: &'static str,
    pub cors: CorsPolicy,
}

/// The groups of routes with their paths. The audit log is found at two.
pub open spec fn nests() -> Seq<(Seq<char>, RouteGroup)> {
    seq![
        ("/connect"@, RouteGroup::Connect),
        ("/admin"@, RouteGroup::Admin),
        ("/delegation"@, RouteGroup::Delegation),
        ("/policy-set"@, RouteGroup::PolicySet),
        ("/capabilities"@, RouteGroup::Capabilities),
        ("/policy-set-template"@, RouteGroup::PolicySetTemplate),
        ("/audit-log"@, RouteGroup::AuditLog),
        ("/audit-log/"@, RouteGroup::AuditLog),
        ("/config"@, RouteGroup::Config),
    ]
}

/// Whether a group of routes is found at a path.
pub open spec fn is_mounted(nests: Seq<Nest>, path: Seq<char>, group: RouteGroup) -> bool {
    exists|i: int|
        0 <= i < nests.len() && (#[trigger] nests[i]).path@ == path && nests[i].group == group
}

/// The parts of the registry, which browsers may call from any origin where the
/// check of origins is disabled.
pub fn get_app(disable_cors_check: bool) -> (layout: AppLayout)
    ensures
        layout.nests@.len() == nests().len(),
        forall|i: int|
            #![trigger layout.nests@[i]]
            0 <= i < layout.nests@.len() ==> (layout.nests@[i].path@, layout.nests@[i].group)
                == nests()[i],
        forall|path: Seq<char>| #[trigger]
            is_mounted(layout.nests@, path, RouteGroup::Connect) <==> path == "/connect"@,
        forall|path: Seq<char>| #[trigger]
            is_mounted(layout.nests@, path, RouteGroup::Admin) <==> path == "/admin"@,
        forall|path: Seq<char>| #[trigger]
            is_mounted(layout.nests@, path, RouteGroup::Delegation) <==> path == "/delegation"@,
        forall|path: Seq<char>| #[trigger]
            is_mounted(layout.nests@, path, RouteGroup::PolicySet) <==> path == "/policy-set"@,
        forall|path: Seq<char>| #[trigger]
            is_mounted(layout.nests@, path, RouteGroup::Capabilities) <==> path == "/capabilities"@,
        forall|path: Seq<char>| #[trigger]
            is_mounted(layout.nests@, path, RouteGroup::PolicySetTemplate) <==> path
                == "/policy-set-template"@,
        forall|path: Seq<char>| #[trigger]
            is_mounted(layout.nests@, path, RouteGroup::AuditLog) <==> path == "/audit-log"@ || path
                == "/audit-log/"@,
        forall|path: Seq<char>| #[trigger]
            is_mounted(layout.nests@, path, RouteGroup::Config) <==> path == "/config"@,
        layout.swagger_ui_path@ == "/swagger-ui"@,
        layout.openapi_path@ == "/api-docs/openapi.json"@,
        layout.cors == if disable_cors_check {
            CorsPolicy::Any
        } else {
            CorsPolicy::SameOrigin
        },
{
    let layout = AppLayout {
        nests: vec![
            Nest { path: "/connect", group: RouteGroup::Connect },
            Nest { path: "/admin", group: RouteGroup::Admin },
            Nest { path: "/delegation", group: RouteGroup::Delegation },
            Nest { path: "/policy-set", group: RouteGroup::PolicySet },
            Nest { path: "/capabilities", group: RouteGroup::Capabilities },
            Nest { path: "/policy-set-template", group: RouteGroup::PolicySetTemplate },
            Nest { path: "/audit-log", group: RouteGroup::AuditLog },
            Nest { path: "/audit-log/", group: RouteGroup::AuditLog },
            Nest { path: "/config", group: RouteGroup::Config },
        ],
        swagger_ui_path: "/swagger-ui",
        openapi_path: "/api-docs/openapi.json",
        cors: if disable_cors_check {
            CorsPolicy::Any
        } else {
            CorsPolicy::SameOrigin
        },
    };
    proof {
        assert forall|path: Seq<char>, group: RouteGroup| #[trigger]
            is_mounted(layout.nests@, path, group) <==> nests().contains((path, group)) by {
            if nests().contains((path, group)) {
                let i = choose|i: int| 0 <= i < nests().len() && nests()[i] == (path, group);
                assert(layout.nests@[i].path@ == path && layout.nests@[i].group == group);
            }
        }
        assert forall|path: Seq<char>, group: RouteGroup| #[trigger]
            nests().contains((path, group)) <==> (match group {
            RouteGroup::Connect => path == "/connect"@,
            RouteGroup::Admin => path == "/admin"@,
            RouteGroup::Delegation => path == "/delegation"@,
            RouteGroup::PolicySet => path == "/policy-set"@,
            RouteGroup::Capabilities => path == "/capabilities"@,
            RouteGroup::PolicySetTemplate => path == "/policy-set-template"@,
            RouteGroup::AuditLog => path == "/audit-log"@ || path == "/audit-log/"@,
            RouteGroup::Config => path == "/config"@,
        }) by {
            law_each_group_is_found_at_its_paths(path, group);
        }
    }
    layout
}

/// Each group of routes is found at its own path and nowhere else, and the audit
/// log at its two.
pub proof fn law_each_group_is_found_at_its_paths(path: Seq<char>, group: RouteGroup)
    ensures
        nests().contains((path, group)) <==> match group {
            RouteGroup::Connect => path == "/connect"@,
            RouteGroup::Admin => path == "/admin"@,
            RouteGroup::Delegation => path == "/delegation"@,
            RouteGroup::PolicySet => path == "/policy-set"@,
            RouteGroup::Capabilities => path == "/capabilities"@,
            RouteGroup::PolicySetTemplate => path == "/policy-set-template"@,
            RouteGroup::AuditLog => path == "/audit-log"@ || path == "/audit-log/"@,
            RouteGroup::Config => path == "/config"@,
        },
{
    let i: int = match group {
        RouteGroup::Connect => 0,
        RouteGroup::Admin => 1,
        RouteGroup::Delegation => 2,
        RouteGroup::PolicySet => 3,
        RouteGroup::Capabilities => 4,
        RouteGroup::PolicySetTemplate => 5,
        RouteGroup::AuditLog => if path == "/audit-log"@ {
            6
        } else {
            7
        },
        RouteGroup::Config => 8,
    };
    if nests()[i] == (path, group) {
        assert(nests().contains((path, group)));
    }
}

/// No path leads to two groups of routes.
pub proof fn law_no_two_groups_share_a_path(i: int, j: int)
    requires
        0 <= i < nests().len(),
        0 <= j < nests().len(),
        nests()[i].0 == nests()[j].0,
    ensures
        i == j,
{
    reveal_strlit("/connect");
    reveal_strlit("/admin");
    reveal_strlit("/delegation");
    reveal_strlit("/policy-set");
    reveal_strlit("/capabilities");
    reveal_strlit("/policy-set-template");
    reveal_strlit("/audit-log");
    reveal_strlit("/audit-log/");
    reveal_strlit("/config");
    assert("/connect"@.len() == 8);
    assert("/admin"@.len() == 6);
    assert("/delegation"@.len() == 11 && "/delegation"@[1] == 'd');
    assert("/policy-set"@.len() == 11 && "/policy-set"@[1] == 'p');
    assert("/capabilities"@.len() == 13);
    assert("/policy-set-template"@.len() == 20);
    assert("/audit-log"@.len() == 10);
    assert("/audit-log/"@.len() == 11 && "/audit-log/"@[1] == 'a');
    assert("/config"@.len() == 7);
}

} // verus!
