//! Identifiers, the clock, the configuration, the routes and the description of
//! the endpoints.

use authorization_registry::access::Caller;
use authorization_registry::app::{get_app, CorsPolicy, RouteGroup};
use authorization_registry::config::{
    default_de_expiry_seconds, default_delegation_allows_service_providers, default_deploy_route,
    default_disable_cors_check, default_jwt_expiry_seconds, default_listen_address,
    default_service_name, default_validate_m2m_certificate, read_config, startup, AddressConfig,
    AllowedDataspaces, ConfigFile, ConfigSource, ContactConfig, FooterConfig, FrontendConfig,
    GeneralConfig, NavigationConfig, SocialsConfig,
};
use authorization_registry::error::AppError;
use authorization_registry::ids::Uuid;
use authorization_registry::openapi::SecurityAddon;
use authorization_registry::routes::admin::{get_admin_routes, Endpoint, Layer, Method};
use authorization_registry::time::{RealTimeProvider, TimeProvider};
use utoipa::openapi::security::{ApiKey, Http, HttpAuthScheme, SecurityScheme};
use utoipa::openapi::{Components, Info, OpenApi, Paths};

#[test]
fn identifiers_are_hyphenated() {
    let id = Uuid { bits: 0xa1a2a3a4b1b2c1c2d1d2d3d4d5d6d7d8 };
    assert_eq!(id.to_string(), "a1a2a3a4-b1b2-c1c2-d1d2-d3d4d5d6d7d8");
    assert_eq!(Uuid { bits: 0 }.to_string(), "00000000-0000-0000-0000-000000000000");
    assert_eq!(Uuid { bits: 0xf }.to_string(), "00000000-0000-0000-0000-00000000000f");
}

#[test]
fn different_identifiers_have_different_texts() {
    let texts: Vec<String> = (0..128).map(|k| Uuid { bits: 1u128 << k }.to_string()).collect();
    for i in 0..texts.len() {
        for j in 0..i {
            assert_ne!(texts[i], texts[j]);
        }
    }
}

#[test]
fn the_clock_runs() {
    let clock = RealTimeProvider::new();
    let first = clock.now();
    let second = clock.now();
    assert!(first.nanos < 1_000_000_000);
    assert!(first.seconds > 1_700_000_000);
    assert!(second.seconds >= first.seconds);
}

fn frontend() -> FrontendConfig {
    FrontendConfig {
        footer: FooterConfig {
            navigation: NavigationConfig {
                passport: "passport".to_owned(),
                catalogue: "".to_owned(),
                clearing: "".to_owned(),
                datastation: "".to_owned(),
            },
            contact: ContactConfig {
                address: AddressConfig { name: "".to_owned(), address_content: vec![] },
                email: "".to_owned(),
                tax_number: "".to_owned(),
                phone_number: "".to_owned(),
            },
            general: GeneralConfig {
                become_member: "".to_owned(),
                faq: "".to_owned(),
                about: "".to_owned(),
                support: "".to_owned(),
            },
            socials: SocialsConfig { linkedin: "".to_owned(), x: "".to_owned() },
        },
    }
}

fn bare_file() -> ConfigFile {
    ConfigFile {
        frontend: frontend(),
        client_eori: "client".to_owned(),
        idp_url: "idp url".to_owned(),
        idp_eori: "idp".to_owned(),
        client_cert_path: "cert".to_owned(),
        client_cert_pass: "pass".to_owned(),
        allowed_company_id: "company".to_owned(),
        satellite_url: "satellite url".to_owned(),
        ishare_ca_path: "ca".to_owned(),
        satellite_eori: "satellite".to_owned(),
        jwt_secret: "secret".to_owned(),
        jwt_expiry_seconds: None,
        database_url: "database".to_owned(),
        listen_address: None,
        de_expiry_seconds: None,
        deploy_route: None,
        seed_folder: None,
        disable_cors_check: None,
        validate_m2m_certificate: None,
        delegation_allows_service_providers: None,
        dataspace_config: None,
        service_name: None,
    }
}

#[test]
fn defaults() {
    assert_eq!(default_listen_address(), "0.0.0.0:4000");
    assert_eq!(default_jwt_expiry_seconds(), 3600);
    assert_eq!(default_de_expiry_seconds(), 3600);
    assert_eq!(default_deploy_route(), "/api");
    assert!(!default_disable_cors_check());
    assert!(default_validate_m2m_certificate());
    assert!(default_delegation_allows_service_providers());
    assert_eq!(default_service_name(), "Dexes Authorization Registry");
}

#[test]
fn what_a_file_leaves_out_is_completed() {
    let config = read_config("x.json", ConfigSource::Parsed(bare_file())).unwrap();
    assert_eq!(config.listen_address, "0.0.0.0:4000");
    assert_eq!(config.jwt_expiry_seconds, 3600);
    assert_eq!(config.de_expiry_seconds, 3600);
    assert_eq!(config.deploy_route, "/api");
    assert!(!config.disable_cors_check);
    assert!(config.validate_m2m_certificate);
    assert!(config.delegation_allows_service_providers);
    assert_eq!(config.service_name, "Dexes Authorization Registry");
    assert_eq!(config.seed_folder, None);
    assert_eq!(config.client_eori, "client");
}

#[test]
fn what_a_file_says_stands() {
    let file = ConfigFile {
        listen_address: Some("127.0.0.1:1".to_owned()),
        jwt_expiry_seconds: Some(1),
        de_expiry_seconds: Some(-2),
        deploy_route: Some("".to_owned()),
        disable_cors_check: Some(true),
        validate_m2m_certificate: Some(false),
        delegation_allows_service_providers: Some(false),
        service_name: Some("AR".to_owned()),
        seed_folder: Some("seeds".to_owned()),
        dataspace_config: Some(AllowedDataspaces { text: "{}".to_owned() }),
        ..bare_file()
    };
    let config = read_config("x.json", ConfigSource::Parsed(file)).unwrap();
    assert_eq!(config.listen_address, "127.0.0.1:1");
    assert_eq!(config.jwt_expiry_seconds, 1);
    assert_eq!(config.de_expiry_seconds, -2);
    assert_eq!(config.deploy_route, "");
    assert!(config.disable_cors_check);
    assert!(!config.validate_m2m_certificate);
    assert!(!config.delegation_allows_service_providers);
    assert_eq!(config.service_name, "AR");
    assert_eq!(config.seed_folder, Some("seeds".to_owned()));

    let startup = startup(config);
    assert_eq!(startup.token.jwt_secret, "secret");
    assert_eq!(startup.token.jwt_expiry_seconds, 1);
    assert_eq!(startup.ishare.client_cert_path, "cert");
    assert_eq!(startup.ishare.client_cert_pass, "pass");
    assert_eq!(startup.ishare.satellite_url, "satellite url");
    assert_eq!(startup.ishare.ishare_ca_path, Some("ca".to_owned()));
    assert_eq!(startup.ishare.client_eori, "client");
    assert_eq!(startup.ishare.satellite_eori, "satellite");
    assert_eq!(startup.ishare.dataspace_config.unwrap().text, "{}");
    assert_eq!(startup.idp.idp_url, "idp url");
    assert_eq!(startup.idp.client_eori, "client");
    assert_eq!(startup.idp.idp_eori, "idp");
    assert_eq!(startup.de_expiry_seconds, -2);
    assert_eq!(startup.app.client_eori, "client");
    assert_eq!(startup.app.allowed_company_id, "company");
    assert_eq!(startup.app.deploy_route, "");
    assert_eq!(startup.app.service_name, "AR");
    assert_eq!(startup.app.frontend.footer.navigation.passport, "passport");
    assert!(!startup.app.validate_m2m_certificate);
    assert!(startup.disable_cors_check);
    assert_eq!(startup.listen_address, "127.0.0.1:1");
}

#[test]
fn a_file_without_a_configuration() {
    assert_eq!(
        read_config("./.config.json", ConfigSource::Unreadable).unwrap_err(),
        "Failed to read config file: './.config.json'"
    );
    assert_eq!(
        read_config("./.config.json", ConfigSource::Unparsable).unwrap_err(),
        "unable to parse config"
    );
}

#[test]
fn the_administration_routes() {
    let admin = get_admin_routes();
    let found: Vec<(&str, Method, Endpoint)> =
        admin.routes.iter().map(|r| (r.path, r.method, r.endpoint)).collect();
    assert_eq!(
        found,
        vec![
            ("/policy-set-template/:id", Method::Delete, Endpoint::DeletePolicySetTemplate),
            ("/policy-set-template", Method::Post, Endpoint::InsertPolicySetTemplate),
            ("/policy-set", Method::Post, Endpoint::InsertPolicySet),
            ("/policy-set", Method::Get, Endpoint::GetAllPolicySets),
            ("/policy-set/:id", Method::Get, Endpoint::GetPolicySet),
            ("/policy-set/:id", Method::Delete, Endpoint::DeletePolicySet),
            ("/policy-set/:id/policy", Method::Post, Endpoint::AddPolicyToPolicySet),
            (
                "/policy-set/:id/policy/:policy_id",
                Method::Delete,
                Endpoint::DeletePolicyFromPolicySet
            ),
            ("/policy-set/:id/policy/:policy_id", Method::Put, Endpoint::ReplacePolicyInPolicySet),
            ("/policy-set/:id/policy/:policy_id", Method::Get, Endpoint::GetPolicy),
        ]
    );
    assert!(matches!(
        admin.layers[..],
        [
            Layer::ExtractHuman,
            Layer::ExtractRole,
            Layer::RequireRole("dexspace_admin"),
            Layer::ShareState
        ]
    ));
}

#[test]
fn only_administrators_are_let_through() {
    let admin = get_admin_routes();
    let human = |roles: &[&str]| Caller::Human {
        roles: roles.iter().map(|role| role.to_string()).collect(),
    };
    assert!(admin.let_through(&human(&["role1", "dexspace_admin"])).is_ok());
    let others = [
        Caller::Unknown,
        Caller::Machine,
        human(&[]),
        human(&["role1", "dexspace_admins", "dexspace"]),
    ];
    for caller in others {
        match admin.let_through(&caller) {
            Err(AppError::Expected(e)) => {
                assert_eq!(e.status_code, 401);
                assert_eq!(e.message, "Unauthorized");
                assert_eq!(e.reason, "The role 'dexspace_admin' is required");
                assert_eq!(e.metadata, None);
            }
            _ => panic!("let through"),
        }
    }
}

#[test]
fn a_role_is_held_by_humans_with_it() {
    let human = Caller::Human { roles: vec!["a".to_owned(), "b".to_owned()] };
    assert!(human.has_role("b"));
    assert!(!human.has_role("c"));
    assert!(!Caller::Machine.has_role("a"));
    assert!(human.require_role("a").is_ok());
    assert!(Caller::Unknown.require_role("a").is_err());
}

#[test]
fn the_layout_of_the_registry() {
    let layout = get_app(true);
    let nests: Vec<(&str, RouteGroup)> = layout.nests.iter().map(|n| (n.path, n.group)).collect();
    assert_eq!(nests.len(), 9);
    assert_eq!(nests[1], ("/admin", RouteGroup::Admin));
    assert_eq!(nests[6], ("/audit-log", RouteGroup::AuditLog));
    assert_eq!(nests[7], ("/audit-log/", RouteGroup::AuditLog));
    for i in 0..nests.len() {
        for j in 0..i {
            assert_ne!(nests[i].0, nests[j].0);
        }
    }
    assert_eq!(layout.swagger_ui_path, "/swagger-ui");
    assert_eq!(layout.openapi_path, "/api-docs/openapi.json");
    assert_eq!(layout.cors, CorsPolicy::Any);
    assert_eq!(get_app(false).cors, CorsPolicy::SameOrigin);
}

#[test]
fn the_security_schemes() {
    let mut openapi = OpenApi::new(Info::new("title", "1.0"), Paths::new());
    let mut components = Components::new();
    components.add_security_scheme("other", SecurityScheme::Http(Http::new(HttpAuthScheme::Basic)));
    components.add_security_scheme("bearer", SecurityScheme::Http(Http::new(HttpAuthScheme::Basic)));
    openapi.components = Some(components);

    assert!(SecurityAddon.try_modify(&mut openapi));

    let once = openapi.clone();
    assert!(SecurityAddon.try_modify(&mut openapi));
    assert!(openapi == once);

    assert_eq!(openapi.info.title, "title");
    let schemes = openapi.components.unwrap().security_schemes;
    assert_eq!(schemes.len(), 3);
    assert!(matches!(schemes["other"], SecurityScheme::Http(_)));
    for name in ["bearer", "h2m_bearer_admin"] {
        match &schemes[name] {
            SecurityScheme::ApiKey(ApiKey::Header(key)) => {
                assert_eq!(key.name, "Bearer Token for Authorize Header");
                assert_eq!(key.description, None);
            }
            _ => panic!("not a key in a header"),
        }
    }
}

#[test]
fn a_description_without_components_stays_as_it_is() {
    let mut openapi = OpenApi::new(Info::new("title", "1.0"), Paths::new());
    assert!(!SecurityAddon.try_modify(&mut openapi));
    assert!(openapi == OpenApi::new(Info::new("title", "1.0"), Paths::new()));
}
