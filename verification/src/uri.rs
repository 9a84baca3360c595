use vstd::prelude::*;

verus! {

/// A uProtocol resource identifier: authority, entity, entity major version and resource.
#[derive(Debug)]
pub struct UUri {
    pub authority_name: String,
    pub ue_id: u32,
    pub ue_version_major: u32,
    pub resource_id: u32,
}

/// The mathematical value of a [`UUri`]: authority name, entity id, major version, resource id.
pub type UUriView = (Seq<char>, u32, u32, u32);

impl View for UUri {
    type V = UUriView;

    open spec fn view(&self) -> UUriView {
        (self.authority_name@, self.ue_id, self.ue_version_major, self.resource_id)
    }
}

impl Clone for UUri {
    fn clone(&self) -> (r: Self)
        ensures
            r@ == self@,
    {
        UUri {
            authority_name: self.authority_name.clone(),
            ue_id: self.ue_id,
            ue_version_major: self.ue_version_major,
            resource_id: self.resource_id,
        }
    }
}

impl UUri {
    /// Whether two identifiers are equal field by field.
    pub fn same_as(&self, other: &UUri) -> (r: bool)
        ensures
            r == (self@ == other@),
    {
        self.ue_id == other.ue_id && self.ue_version_major == other.ue_version_major
            && self.resource_id == other.resource_id && self.authority_name == other.authority_name
    }
}

/// Two identifiers have the same value exactly when they agree on all four fields.
pub proof fn uri_value_is_all_fields(a: UUri, b: UUri)
    ensures
        (a@ == b@) == (a.authority_name@ == b.authority_name@ && a.ue_id == b.ue_id
            && a.ue_version_major == b.ue_version_major && a.resource_id == b.resource_id),
{
}

/// The view of an optional identifier.
pub open spec fn opt_uri_view(u: Option<UUri>) -> Option<UUriView> {
    match u {
        Some(x) => Some(x@),
        None => None,
    }
}

/// Copies an optional identifier.
pub fn clone_opt_uri(u: &Option<UUri>) -> (r: Option<UUri>)
    ensures
        opt_uri_view(r) == opt_uri_view(*u),
{
    match u {
        Some(x) => Some(x.clone()),
        None => None,
    }
}

/// Whether two optional identifiers are both absent or both present and equal.
pub fn same_opt_uri(a: &Option<UUri>, b: &Option<UUri>) -> (r: bool)
    ensures
        r == (opt_uri_view(*a) == opt_uri_view(*b)),
{
    match (a, b) {
        (Some(x), Some(y)) => x.same_as(y),
        (None, None) => true,
        _ => false,
    }
}

/// The identifier of the resource `resource_id` of the entity `(authority, entity_id, version)`.
pub open spec fn entity_resource_uri(authority: Seq<char>, entity_id: u32, version: u8, resource_id: u16) -> UUriView {
    (authority, entity_id, version as u32, resource_id as u32)
}

/// Hands out the identifiers of one uEntity: its source identifier and those of its resources.
pub struct StaticUriProvider {
    pub authority: String,
    pub entity_id: u32,
    pub version: u8,
}

/// `up_rust::StaticUriProvider::get_resource_uri` for the provider made by
/// `up_rust::StaticUriProvider::new(authority, entity_id, version)`: the claim is that the
/// identifier carries the given authority, entity id and version (widened to `u32`) and the
/// given resource id, as the outside source builds it field by field.
#[verifier::external_body]
fn outside_resource_uri(authority: &str, entity_id: u32, version: u8, resource_id: u16) -> (r: UUri)
    ensures
        r@ == entity_resource_uri(authority@, entity_id, version, resource_id),
{
    let uri = up_rust::LocalUriProvider::get_resource_uri(
        &up_rust::StaticUriProvider::new(authority, entity_id, version),
        resource_id,
    );
    UUri {
        authority_name: uri.authority_name,
        ue_id: uri.ue_id,
        ue_version_major: uri.ue_version_major,
        resource_id: uri.resource_id,
    }
}

/// `up_rust::StaticUriProvider::get_source_uri` for the provider made by
/// `up_rust::StaticUriProvider::new(authority, entity_id, version)`: the claim is that the
/// identifier carries the given authority, entity id and version and resource id 0.
#[verifier::external_body]
fn outside_source_uri(authority: &str, entity_id: u32, version: u8) -> (r: UUri)
    ensures
        r@ == entity_resource_uri(authority@, entity_id, version, 0),
{
    let uri = up_rust::LocalUriProvider::get_source_uri(
        &up_rust::StaticUriProvider::new(authority, entity_id, version),
    );
    UUri {
        authority_name: uri.authority_name,
        ue_id: uri.ue_id,
        ue_version_major: uri.ue_version_major,
        resource_id: uri.resource_id,
    }
}

impl StaticUriProvider {
    /// Creates a provider for the entity `entity_id`, in major version `version`, on `authority`.
    pub fn new(authority: String, entity_id: u32, version: u8) -> (r: StaticUriProvider)
        ensures
            r.authority@ == authority@,
            r.entity_id == entity_id,
            r.version == version,
    {
        StaticUriProvider { authority, entity_id, version }
    }

    /// Returns the identifier of the entity's resource `resource_id`.
    pub fn get_resource_uri(&self, resource_id: u16) -> (r: UUri)
        ensures
            r@ == entity_resource_uri(self.authority@, self.entity_id, self.version, resource_id),
    {
        outside_resource_uri(self.authority.as_str(), self.entity_id, self.version, resource_id)
    }

    /// Returns the entity's own (source) identifier, whose resource id is 0.
    pub fn get_source_uri(&self) -> (r: UUri)
        ensures
            r@ == entity_resource_uri(self.authority@, self.entity_id, self.version, 0),
    {
        outside_source_uri(self.authority.as_str(), self.entity_id, self.version)
    }
}

/// The identifiers one provider hands out differ in the resource id alone: any two agree on
/// authority, entity and version, and they are equal exactly when their resource ids are.
pub proof fn provider_uris_share_entity(authority: Seq<char>, entity_id: u32, version: u8, r1: u16, r2: u16)
    ensures
        entity_resource_uri(authority, entity_id, version, r1).0 == entity_resource_uri(authority, entity_id, version, r2).0,
        entity_resource_uri(authority, entity_id, version, r1).1 == entity_resource_uri(authority, entity_id, version, r2).1,
        entity_resource_uri(authority, entity_id, version, r1).2 == entity_resource_uri(authority, entity_id, version, r2).2,
        (entity_resource_uri(authority, entity_id, version, r1) == entity_resource_uri(authority, entity_id, version, r2)) == (r1 == r2),
{
}

/// A provider's identifiers carry the provider's authority, entity id and version (widened),
/// and the requested resource id.
pub proof fn provider_uri_fields(authority: Seq<char>, entity_id: u32, version: u8, resource_id: u16)
    ensures
        entity_resource_uri(authority, entity_id, version, resource_id).0 == authority,
        entity_resource_uri(authority, entity_id, version, resource_id).1 == entity_id,
        entity_resource_uri(authority, entity_id, version, resource_id).2 as int == version as int,
        entity_resource_uri(authority, entity_id, version, resource_id).3 as int == resource_id as int,
{
}

} // verus!
