//! The security schemes of the published description of the endpoints.

use vstd::prelude::*;

verus! {

/// A description of endpoints, of `utoipa`.
#[verifier::external_type_specification]
#[verifier::external_body]
pub struct ExOpenApi(utoipa::openapi::OpenApi);

/// Whether a description has a section for components.
pub uninterp spec fn has_components(openapi: utoipa::openapi::OpenApi) -> bool;

/// The security schemes in the components of a description, by name: `Ok` with
/// the header of a scheme that is a key in a header and has nothing but that
/// header, and `Err` with the text of a scheme of any other kind.
pub uninterp spec fn security_schemes(openapi: utoipa::openapi::OpenApi) -> Map<
    Seq<char>,
    Result<Seq<char>, Seq<char>>,
>;

/// What a description holds apart from its security schemes: the text of each
/// value in it, by the place where the value stands.
pub uninterp spec fn other_entries(openapi: utoipa::openapi::OpenApi) -> Map<Seq<char>, Seq<char>>;

/// Reads the field `components` of `utoipa::openapi::OpenApi`.
///
/// Trusted: it says whether there is a section for components.
#[verifier::external_body]
fn components_present(openapi: &utoipa::openapi::OpenApi) -> (present: bool)
    ensures
        present == has_components(*openapi),
{
    openapi.components.is_some()
}

/// Calls `utoipa::openapi::Components::add_security_scheme` with a key in a
/// header that `ApiKeyValue::new` makes.
///
/// Trusted: the scheme is entered under its name, in the place of one that was
/// entered under that name before; every other scheme stays, and so does the
/// rest of the description. Where the same scheme was entered under that name
/// before, the description stays as it is.
#[verifier::external_body]
fn add_header_key(openapi: &mut utoipa::openapi::OpenApi, name: &str, header: &str)
    requires
        has_components(*old(openapi)),
    ensures
        has_components(*final(openapi)),
        security_schemes(*final(openapi)) == security_schemes(*old(openapi)).insert(
            name@,
            Ok(header@),
        ),
        other_entries(*final(openapi)) == other_entries(*old(openapi)),
        security_schemes(*old(openapi)).contains_pair(name@, Ok(header@)) ==> *final(openapi)
            == *old(openapi),
{
    openapi.components.as_mut().unwrap().add_security_scheme(
        name,
        utoipa::openapi::security::SecurityScheme::ApiKey(
            utoipa::openapi::security::ApiKey::Header(
                utoipa::openapi::security::ApiKeyValue::new(header),
            ),
        ),
    );
}

/// The security schemes of the registry on top of those that are there: one
/// for any token, and one for the token of an administrator.
pub open spec fn with_registry_schemes(schemes: Map<Seq<char>, Result<Seq<char>, Seq<char>>>) -> Map<
    Seq<char>,
    Result<Seq<char>, Seq<char>>,
> {
    schemes.insert("bearer"@, Ok("Bearer Token for Authorize Header"@)).insert(
        "h2m_bearer_admin"@,
        Ok("Bearer Token for Authorize Header"@),
    )
}

/// Whether both security schemes of the registry are there.
pub open spec fn has_registry_schemes(schemes: Map<Seq<char>, Result<Seq<char>, Seq<char>>>) -> bool {
    &&& schemes.contains_pair("bearer"@, Ok("Bearer Token for Authorize Header"@))
    &&& schemes.contains_pair("h2m_bearer_admin"@, Ok("Bearer Token for Authorize Header"@))
}

/// Whether a description is what another one becomes by adding the security
/// schemes of the registry: they are entered, the rest stays, and where they
/// were there all along nothing changes.
pub open spec fn is_modified(
    before: utoipa::openapi::OpenApi,
    after: utoipa::openapi::OpenApi,
) -> bool {
    &&& has_components(after)
    &&& security_schemes(after) == with_registry_schemes(security_schemes(before))
    &&& other_entries(after) == other_entries(before)
    &&& has_registry_schemes(security_schemes(before)) ==> after == before
}

/// The registry has both of its security schemes, every scheme under another
/// name stays as it was, and adding them again changes nothing.
pub proof fn law_registry_schemes(
    schemes: Map<Seq<char>, Result<Seq<char>, Seq<char>>>,
    name: Seq<char>,
)
    ensures
        has_registry_schemes(with_registry_schemes(schemes)),
        with_registry_schemes(schemes).contains_pair(
            "bearer"@,
            Ok("Bearer Token for Authorize Header"@),
        ),
        with_registry_schemes(schemes).contains_pair(
            "h2m_bearer_admin"@,
            Ok("Bearer Token for Authorize Header"@),
        ),
        name != "bearer"@ && name != "h2m_bearer_admin"@ ==> (with_registry_schemes(
            schemes,
        ).contains_key(name) <==> schemes.contains_key(name)) && with_registry_schemes(
            schemes,
        )[name] == schemes[name],
        with_registry_schemes(with_registry_schemes(schemes)) == with_registry_schemes(schemes),
{
    reveal_strlit("bearer");
    reveal_strlit("h2m_bearer_admin");
    assert("bearer"@.len() == 6 && "h2m_bearer_admin"@.len() == 16);
}

/// A description to which the security schemes are added twice is what it is
/// after they were added once.
pub proof fn law_modifying_twice_is_modifying_once(
    before: utoipa::openapi::OpenApi,
    once: utoipa::openapi::OpenApi,
    twice: utoipa::openapi::OpenApi,
)
    requires
        is_modified(before, once),
        is_modified(once, twice),
    ensures
        twice == once,
{
    law_registry_schemes(security_schemes(before), Seq::empty());
}

/// Adds the security schemes of the registry to a description.
pub struct SecurityAddon;

impl SecurityAddon {
    /// Adds the security schemes of the registry to a description that has a
    /// section for components.
    pub fn modify(&self, openapi: &mut utoipa::openapi::OpenApi)
        requires
            has_components(*old(openapi)),
        ensures
            is_modified(*old(openapi), *final(openapi)),
    {
        add_header_key(openapi, "bearer", "Bearer Token for Authorize Header");
        add_header_key(openapi, "h2m_bearer_admin", "Bearer Token for Authorize Header");
    }

    /// Adds the security schemes of the registry where the description has a
    /// section for components, and says whether it has one. Where it has none,
    /// the description stays as it is.
    pub fn try_modify(&self, openapi: &mut utoipa::openapi::OpenApi) -> (modified: bool)
        ensures
            modified == has_components(*old(openapi)),
            modified ==> is_modified(*old(openapi), *final(openapi)),
            !modified ==> *final(openapi) == *old(openapi),
    {
        if components_present(openapi) {
            self.modify(openapi);
            true
        } else {
            false
        }
    }
}

} // verus!
