//! The configuration of the registry: what a configuration file says, the
//! values that stand in for what it leaves out, and what each part of the
//! registry is started with.

use vstd::prelude::*;
use vstd::string::*;

verus! {

pub fn default_listen_address() -> (address: String)
    ensures
        address@ == "0.0.0.0:4000"@,
{
    "0.0.0.0:4000".to_owned()
}

pub fn default_jwt_expiry_seconds() -> (seconds: u64)
    ensures
        seconds == 3600,
{
    3600
}

pub fn default_de_expiry_seconds() -> (seconds: i64)
    ensures
        seconds == 3600,
{
    3600
}

pub fn default_deploy_route() -> (route: String)
    ensures
        route@ == "/api"@,
{
    "/api".to_owned()
}

pub fn default_disable_cors_check() -> (disable: bool)
    ensures
        disable == false,
{
    false
}

pub fn default_validate_m2m_certificate() -> (validate: bool)
    ensures
        validate == true,
{
    true
}

pub fn default_delegation_allows_service_providers() -> (allows: bool)
    ensures
        allows == true,
{
    true
}

pub fn default_service_name() -> (name: String)
    ensures
        name@ == "Dexes Authorization Registry"@,
{
    "Dexes Authorization Registry".to_owned()
}

#[derive(Clone, Debug)]
pub struct NavigationConfig {
    pub passport: String,
    pub catalogue: String,
    pub clearing: String,
    pub datastation: String,
}

#[derive(Clone, Debug)]
pub struct AddressConfig {
    pub name: String,
    pub address_content: Vec<String>,
}

#[derive(Clone, Debug)]
pub struct ContactConfig {
    pub address: AddressConfig,
    pub tax_number: String,
    pub email: String,
    pub phone_number: String,
}

#[derive(Clone, Debug)]
pub struct GeneralConfig {
    pub become_member: String,
    pub faq: String,
    pub about: String,
    pub support: String,
}

#[derive(Clone, Debug)]
pub struct SocialsConfig {
    pub linkedin: String,
    pub x: String,
}

#[derive(Clone, Debug)]
pub struct FooterConfig {
    pub navigation: NavigationConfig,
    pub contact: ContactConfig,
    pub general: GeneralConfig,
    pub socials: SocialsConfig,
}

#[derive(Clone, Debug)]
pub struct FrontendConfig {
    pub footer: FooterConfig,
}

/// The dataspaces that the registry serves, as the text that the configuration
/// file gives. The registry hands it on and never looks inside.
#[derive(Clone, Debug)]
pub struct AllowedDataspaces {
    pub text: String,
}

/// What a configuration file says. What is `None` it leaves out.
#[derive(Debug)]
pub struct ConfigFile {
    pub frontend: FrontendConfig,
    pub client_eori: String,
    pub idp_url: String,
    pub idp_eori: String,
    pub client_cert_path: String,
    pub client_cert_pass: String,
    pub allowed_company_id: String,
    pub satellite_url: String,
    pub ishare_ca_path: String,
    pub satellite_eori: String,
    pub jwt_secret: String,
    pub jwt_expiry_seconds: Option<u64>,
    pub database_url: String,
    pub listen_address: Option<String>,
    pub de_expiry_seconds: Option<i64>,
    pub deploy_route: Option<String>,
    pub seed_folder: Option<String>,
    pub disable_cors_check: Option<bool>,
    pub validate_m2m_certificate: Option<bool>,
    pub delegation_allows_service_providers: Option<bool>,
    pub dataspace_config: Option<AllowedDataspaces>,
    pub service_name: Option<String>,
}

/// The whole configuration.
#[derive(Clone, Debug)]
pub struct Config {
    pub frontend: FrontendConfig,
    pub client_eori: String,
    pub idp_url: String,
    pub idp_eori: String,
    pub client_cert_path: String,
    pub client_cert_pass: String,
    pub allowed_company_id: String,
    pub satellite_url: String,
    pub ishare_ca_path: String,
    pub satellite_eori: String,
    pub jwt_secret: String,
    pub jwt_expiry_seconds: u64,
    pub database_url: String,
    pub listen_address: String,
    pub de_expiry_seconds: i64,
    pub deploy_route: String,
    pub seed_folder: Option<String>,
    pub disable_cors_check: bool,
    pub validate_m2m_certificate: bool,
    pub delegation_allows_service_providers: bool,
    pub dataspace_config: Option<AllowedDataspaces>,
    pub service_name: String,
}

/// Whether `value` is the text given, or the default where none is given.
pub open spec fn is_given_or(value: String, given: Option<String>, default: Seq<char>) -> bool {
    match given {
        Some(text) => value == text,
        None => value@ == default,
    }
}

impl Config {
    /// Whether this is what a file says, with the defaults for what it leaves
    /// out.
    pub open spec fn completes(&self, file: ConfigFile) -> bool {
        &&& self.frontend == file.frontend
        &&& self.client_eori == file.client_eori
        &&& self.idp_url == file.idp_url
        &&& self.idp_eori == file.idp_eori
        &&& self.client_cert_path == file.client_cert_path
        &&& self.client_cert_pass == file.client_cert_pass
        &&& self.allowed_company_id == file.allowed_company_id
        &&& self.satellite_url == file.satellite_url
        &&& self.ishare_ca_path == file.ishare_ca_path
        &&& self.satellite_eori == file.satellite_eori
        &&& self.jwt_secret == file.jwt_secret
        &&& self.jwt_expiry_seconds == file.jwt_expiry_seconds.unwrap_or(3600)
        &&& self.database_url == file.database_url
        &&& is_given_or(self.listen_address, file.listen_address, "0.0.0.0:4000"@)
        &&& self.de_expiry_seconds == file.de_expiry_seconds.unwrap_or(3600)
        &&& is_given_or(self.deploy_route, file.deploy_route, "/api"@)
        &&& self.seed_folder == file.seed_folder
        &&& self.disable_cors_check == file.disable_cors_check.unwrap_or(false)
        &&& self.validate_m2m_certificate == file.validate_m2m_certificate.unwrap_or(true)
        &&& self.delegation_allows_service_providers
            == file.delegation_allows_service_providers.unwrap_or(true)
        &&& self.dataspace_config == file.dataspace_config
        &&& is_given_or(self.service_name, file.service_name, "Dexes Authorization Registry"@)
    }

    /// What a file says, with the defaults for what it leaves out.
    pub fn complete(file: ConfigFile) -> (config: Config)
        ensures
            config.completes(file),
    {
        Config {
            frontend: file.frontend,
            client_eori: file.client_eori,
            idp_url: file.idp_url,
            idp_eori: file.idp_eori,
            client_cert_path: file.client_cert_path,
            client_cert_pass: file.client_cert_pass,
            allowed_company_id: file.allowed_company_id,
            satellite_url: file.satellite_url,
            ishare_ca_path: file.ishare_ca_path,
            satellite_eori: file.satellite_eori,
            jwt_secret: file.jwt_secret,
            jwt_expiry_seconds: match file.jwt_expiry_seconds {
                Some(seconds) => seconds,
                None => default_jwt_expiry_seconds(),
            },
            database_url: file.database_url,
            listen_address: match file.listen_address {
                Some(address) => address,
                None => default_listen_address(),
            },
            de_expiry_seconds: match file.de_expiry_seconds {
                Some(seconds) => seconds,
                None => default_de_expiry_seconds(),
            },
            deploy_route: match file.deploy_route {
                Some(route) => route,
                None => default_deploy_route(),
            },
            seed_folder: file.seed_folder,
            disable_cors_check: match file.disable_cors_check {
                Some(disable) => disable,
                None => default_disable_cors_check(),
            },
            validate_m2m_certificate: match file.validate_m2m_certificate {
                Some(validate) => validate,
                None => default_validate_m2m_certificate(),
            },
            delegation_allows_service_providers: match file.delegation_allows_service_providers {
                Some(allows) => allows,
                None => default_delegation_allows_service_providers(),
            },
            dataspace_config: file.dataspace_config,
            service_name: match file.service_name {
                Some(name) => name,
                None => default_service_name(),
            },
        }
    }
}

/// What came of reading a configuration file and taking it apart.
#[derive(Debug)]
pub enum ConfigSource {
    /// The file could not be read.
    Unreadable,
    /// What the file holds is no configuration.
    Unparsable,
    Parsed(ConfigFile),
}

/// The configuration that comes of the file at `path`, or why there is none.
pub fn read_config(path: &str, source: ConfigSource) -> (config: Result<Config, String>)
    ensures
        match source {
            ConfigSource::Unreadable => config is Err && config->Err_0@
                == "Failed to read config file: '"@ + path@ + "'"@,
            ConfigSource::Unparsable => config is Err && config->Err_0@
                == "unable to parse config"@,
            ConfigSource::Parsed(file) => config is Ok && config->Ok_0.completes(file),
        },
{
    match source {
        ConfigSource::Unreadable => Err(
            "Failed to read config file: '".to_owned().concat(path).concat("'"),
        ),
        ConfigSource::Unparsable => Err("unable to parse config".to_owned()),
        ConfigSource::Parsed(file) => Ok(Config::complete(file)),
    }
}

/// What the endpoints of the running registry are told of its configuration.
#[derive(Debug)]
pub struct AppConfig {
    pub deploy_route: String,
    pub allowed_company_id: String,
    pub client_eori: String,
    pub validate_m2m_certificate: bool,
    pub delegation_allows_service_providers: bool,
    pub frontend: FrontendConfig,
    pub service_name: String,
}

/// What tokens of the registry are signed with, and how long they hold.
#[derive(Debug)]
pub struct TokenSettings {
    pub jwt_secret: String,
    pub jwt_expiry_seconds: u64,
}

/// What the client of the satellite is made of.
#[derive(Debug)]
pub struct IshareSettings {
    pub client_cert_path: String,
    pub client_cert_pass: String,
    pub satellite_url: String,
    pub ishare_ca_path: Option<String>,
    pub client_eori: String,
    pub satellite_eori: String,
    pub dataspace_config: Option<AllowedDataspaces>,
}

/// What the client of the identity provider is made of.
#[derive(Debug)]
pub struct IdpSettings {
    pub idp_url: String,
    pub client_eori: String,
    pub idp_eori: String,
}

/// What each part of the registry is started with.
#[derive(Debug)]
pub struct Startup {
    pub token: TokenSettings,
    pub ishare: IshareSettings,
    pub idp: IdpSettings,
    pub de_expiry_seconds: i64,
    pub app: AppConfig,
    pub disable_cors_check: bool,
    pub listen_address: String,
}

/// What a file says is what the registry is started with, setting by setting,
/// and each default stands in for that setting alone.
pub proof fn law_each_part_is_started_with_what_the_file_says(file: ConfigFile, config: Config)
    requires
        config.completes(file),
    ensures
        ({
            let started = startup_of(config);
            &&& started.app.validate_m2m_certificate == (match file.validate_m2m_certificate {
                Some(validate) => validate,
                None => true,
            })
            &&& started.app.delegation_allows_service_providers == (
            match file.delegation_allows_service_providers {
                Some(allows) => allows,
                None => true,
            })
            &&& started.disable_cors_check == (match file.disable_cors_check {
                Some(disable) => disable,
                None => false,
            })
            &&& started.token.jwt_expiry_seconds == (match file.jwt_expiry_seconds {
                Some(seconds) => seconds,
                None => 3600,
            })
            &&& started.de_expiry_seconds == (match file.de_expiry_seconds {
                Some(seconds) => seconds,
                None => 3600,
            })
            &&& started.listen_address@ == (match file.listen_address {
                Some(address) => address@,
                None => "0.0.0.0:4000"@,
            })
            &&& started.app.deploy_route@ == (match file.deploy_route {
                Some(route) => route@,
                None => "/api"@,
            })
            &&& started.app.service_name@ == (match file.service_name {
                Some(name) => name@,
                None => "Dexes Authorization Registry"@,
            })
            &&& started.app.allowed_company_id == file.allowed_company_id
            &&& started.app.client_eori == file.client_eori
            &&& started.app.frontend == file.frontend
            &&& started.token.jwt_secret == file.jwt_secret
            &&& started.ishare.client_cert_path == file.client_cert_path
            &&& started.ishare.client_cert_pass == file.client_cert_pass
            &&& started.ishare.satellite_url == file.satellite_url
            &&& started.ishare.ishare_ca_path == Some(file.ishare_ca_path)
            &&& started.ishare.client_eori == file.client_eori
            &&& started.ishare.satellite_eori == file.satellite_eori
            &&& started.ishare.dataspace_config == file.dataspace_config
            &&& started.idp.idp_url == file.idp_url
            &&& started.idp.client_eori == file.client_eori
            &&& started.idp.idp_eori == file.idp_eori
        }),
        config.database_url == file.database_url,
        config.seed_folder == file.seed_folder,
{
}

/// What each part of the registry is started with under a configuration.
pub open spec fn startup_of(config: Config) -> Startup {
    Startup {
        token: TokenSettings {
            jwt_secret: config.jwt_secret,
            jwt_expiry_seconds: config.jwt_expiry_seconds,
        },
        ishare: IshareSettings {
            client_cert_path: config.client_cert_path,
            client_cert_pass: config.client_cert_pass,
            satellite_url: config.satellite_url,
            ishare_ca_path: Some(config.ishare_ca_path),
            client_eori: config.client_eori,
            satellite_eori: config.satellite_eori,
            dataspace_config: config.dataspace_config,
        },
        idp: IdpSettings {
            idp_url: config.idp_url,
            client_eori: config.client_eori,
            idp_eori: config.idp_eori,
        },
        de_expiry_seconds: config.de_expiry_seconds,
        app: AppConfig {
            deploy_route: config.deploy_route,
            allowed_company_id: config.allowed_company_id,
            client_eori: config.client_eori,
            validate_m2m_certificate: config.validate_m2m_certificate,
            delegation_allows_service_providers: config.delegation_allows_service_providers,
            frontend: config.frontend,
            service_name: config.service_name,
        },
        disable_cors_check: config.disable_cors_check,
        listen_address: config.listen_address,
    }
}

/// Hands the configuration out to the parts of the registry. The party that the
/// registry is itself goes to the satellite, to the identity provider and to
/// the endpoints.
pub fn startup(config: Config) -> (startup: Startup)
    ensures
        startup == startup_of(config),
{
    Startup {
        token: TokenSettings {
            jwt_secret: config.jwt_secret,
            jwt_expiry_seconds: config.jwt_expiry_seconds,
        },
        ishare: IshareSettings {
            client_cert_path: config.client_cert_path,
            client_cert_pass: config.client_cert_pass,
            satellite_url: config.satellite_url,
            ishare_ca_path: Some(config.ishare_ca_path),
            client_eori: config.client_eori.clone(),
            satellite_eori: config.satellite_eori,
            dataspace_config: config.dataspace_config,
        },
        idp: IdpSettings {
            idp_url: config.idp_url,
            client_eori: config.client_eori.clone(),
            idp_eori: config.idp_eori,
        },
        de_expiry_seconds: config.de_expiry_seconds,
        app: AppConfig {
            deploy_route: config.deploy_route,
            allowed_company_id: config.allowed_company_id,
            client_eori: config.client_eori,
            validate_m2m_certificate: config.validate_m2m_certificate,
            delegation_allows_service_providers: config.delegation_allows_service_providers,
            frontend: config.frontend,
            service_name: config.service_name,
        },
        disable_cors_check: config.disable_cors_check,
        listen_address: config.listen_address,
    }
}

} // verus!
