//! The requests and responses of the auth-management calls.

use vstd::prelude::*;
use crate::header::ResponseHeader;

verus! {

/// Asks whether authentication is enabled.
#[derive(Clone, Copy, Debug, Default)]
pub struct AuthStatusRequest {}

#[derive(Clone, Copy, Debug)]
pub struct AuthStatusResponse {
    pub header: ResponseHeader,
    pub enabled: bool,
    pub auth_revision: u64,
}

impl AuthStatusResponse {
    /// The response read off the wire fields. Every response carries a
    /// header.
    pub fn from_parts(header: Option<ResponseHeader>, enabled: bool, auth_revision: u64) -> (r:
        AuthStatusResponse)
        requires
            header is Some,
        ensures
            r.header == header.unwrap(),
            r.enabled == enabled,
            r.auth_revision == auth_revision,
    {
        AuthStatusResponse { header: header.unwrap(), enabled, auth_revision }
    }
}

/// Asks for authentication to be enabled.
#[derive(Clone, Copy, Debug, Default)]
pub struct AuthEnableRequest {}

#[derive(Clone, Copy, Debug)]
pub struct AuthEnableResponse {
    pub header: ResponseHeader,
}

impl AuthEnableResponse {
    pub fn from_parts(header: Option<ResponseHeader>) -> (r: AuthEnableResponse)
        requires
            header is Some,
        ensures
            r.header == header.unwrap(),
    {
        AuthEnableResponse { header: header.unwrap() }
    }
}

/// Asks for authentication to be disabled.
#[derive(Clone, Copy, Debug, Default)]
pub struct AuthDisableRequest {}

#[derive(Clone, Copy, Debug)]
pub struct AuthDisableResponse {
    pub header: ResponseHeader,
}

impl AuthDisableResponse {
    pub fn from_parts(header: Option<ResponseHeader>) -> (r: AuthDisableResponse)
        requires
            header is Some,
        ensures
            r.header == header.unwrap(),
    {
        AuthDisableResponse { header: header.unwrap() }
    }
}

/// Asks for a role to be added.
#[derive(Clone, Debug)]
pub struct AuthRoleAddRequest {
    name: String,
}

impl AuthRoleAddRequest {
    /// The name of the role to add.
    pub closed spec fn spec_name(&self) -> Seq<char> {
        self.name@
    }

    pub fn new(name: &str) -> (req: AuthRoleAddRequest)
        ensures
            req.spec_name() == name@,
    {
        AuthRoleAddRequest { name: name.to_owned() }
    }

    pub fn name(&self) -> (n: &String)
        ensures
            n@ == self.spec_name(),
    {
        &self.name
    }
}

impl<'a> From<&'a str> for AuthRoleAddRequest {
    /// The request to add the role of this name.
    fn from(name: &'a str) -> (req: AuthRoleAddRequest)
        ensures
            req.spec_name() == name@,
    {
        AuthRoleAddRequest::new(name)
    }
}

impl<'a> vstd::std_specs::convert::FromSpecImpl<&'a str> for AuthRoleAddRequest {
    open spec fn obeys_from_spec() -> bool {
        false
    }

    open spec fn from_spec(v: &'a str) -> AuthRoleAddRequest {
        arbitrary()
    }
}

#[derive(Clone, Copy, Debug)]
pub struct AuthRoleAddResponse {
    pub header: ResponseHeader,
}

impl AuthRoleAddResponse {
    pub fn from_parts(header: Option<ResponseHeader>) -> (r: AuthRoleAddResponse)
        requires
            header is Some,
        ensures
            r.header == header.unwrap(),
    {
        AuthRoleAddResponse { header: header.unwrap() }
    }
}

/// Asks for a role to be deleted.
#[derive(Clone, Debug)]
pub struct AuthRoleDeleteRequest {
    role: String,
}

impl AuthRoleDeleteRequest {
    /// The name of the role to delete.
    pub closed spec fn spec_role(&self) -> Seq<char> {
        self.role@
    }

    pub fn new(role: &str) -> (req: AuthRoleDeleteRequest)
        ensures
            req.spec_role() == role@,
    {
        AuthRoleDeleteRequest { role: role.to_owned() }
    }

    pub fn role(&self) -> (n: &String)
        ensures
            n@ == self.spec_role(),
    {
        &self.role
    }
}

impl<'a> From<&'a str> for AuthRoleDeleteRequest {
    /// The request to delete the role of this name.
    fn from(role: &'a str) -> (req: AuthRoleDeleteRequest)
        ensures
            req.spec_role() == role@,
    {
        AuthRoleDeleteRequest::new(role)
    }
}

impl<'a> vstd::std_specs::convert::FromSpecImpl<&'a str> for AuthRoleDeleteRequest {
    open spec fn obeys_from_spec() -> bool {
        false
    }

    open spec fn from_spec(v: &'a str) -> AuthRoleDeleteRequest {
        arbitrary()
    }
}

#[derive(Clone, Copy, Debug)]
pub struct AuthRoleDeleteResponse {
    pub header: ResponseHeader,
}

impl AuthRoleDeleteResponse {
    pub fn from_parts(header: Option<ResponseHeader>) -> (r: AuthRoleDeleteResponse)
        requires
            header is Some,
        ensures
            r.header == header.unwrap(),
    {
        AuthRoleDeleteResponse { header: header.unwrap() }
    }
}

/// Asks for the roles.
#[derive(Clone, Copy, Debug, Default)]
pub struct AuthRoleListRequest {}

#[derive(Clone, Debug)]
pub struct AuthRoleListResponse {
    pub header: ResponseHeader,
    pub roles: Vec<String>,
}

impl AuthRoleListResponse {
    pub fn from_parts(header: Option<ResponseHeader>, roles: Vec<String>) -> (r:
        AuthRoleListResponse)
        requires
            header is Some,
        ensures
            r.header == header.unwrap(),
            r.roles == roles,
    {
        AuthRoleListResponse { header: header.unwrap(), roles }
    }
}

} // verus!
