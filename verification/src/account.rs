//! Account endpoints: creation, activation, and recovery. Each request type
//! carries its declared descriptor and path; the client methods plan the
//! calls through the one generic dispatch.

use vstd::prelude::*;

use crate::client::Client;
use crate::common::ApiObject;
use crate::endpoint::{Descriptor, Method, Placement, PlannedRequest};
use crate::errors::Errors;
use crate::urls::spec_join;

verus! {

/// The attributes of a user resource.
#[derive(Debug, Clone)]
pub struct UserAttributes {
    pub username: String,
    pub version: i32,
}

/// A user, in the canonical resource envelope.
pub type User = ApiObject<UserAttributes>;

/// Create account.
///
/// Call to `POST /account/create`: JSON body, no session required; the
/// success payload's `{data}` envelope is projected away.
#[derive(Debug, Clone)]
pub struct CreateAccountReq {
    pub username: String,
    pub password: String,
    pub email: String,
}

impl CreateAccountReq {
    pub fn new(username: String, password: String, email: String) -> (r: Self)
        ensures
            r.username == username,
            r.password == password,
            r.email == email,
    {
        CreateAccountReq { username, password, email }
    }

    /// The declared endpoint descriptor.
    pub fn descriptor() -> (d: Descriptor)
        ensures
            d == (Descriptor {
                method: Method::Post,
                placement: Placement::JsonBody,
                requires_auth: false,
            }),
    {
        Descriptor { method: Method::Post, placement: Placement::JsonBody, requires_auth: false }
    }

    /// The static path of the endpoint.
    pub fn path(&self) -> (p: String)
        ensures
            p@ == "/account/create"@,
    {
        String::from_str("/account/create")
    }
}

/// Activate account.
///
/// Call to `GET /account/activate/{code}`: the activation code is a
/// templated path parameter; no payload, no session required.
#[derive(Debug, Clone)]
pub struct ActivateAccountReq {
    pub code: String,
}

impl ActivateAccountReq {
    pub fn new(code: String) -> (r: Self)
        ensures
            r.code == code,
    {
        ActivateAccountReq { code }
    }

    /// The declared endpoint descriptor.
    pub fn descriptor() -> (d: Descriptor)
        ensures
            d == (Descriptor {
                method: Method::Get,
                placement: Placement::Empty,
                requires_auth: false,
            }),
    {
        Descriptor { method: Method::Get, placement: Placement::Empty, requires_auth: false }
    }

    /// The path with the code substituted in its declared position.
    pub fn path(&self) -> (p: String)
        ensures
            p@ == "/account/activate/"@ + self.code@,
    {
        let mut p = String::from_str("/account/activate/");
        p.append(self.code.as_str());
        p
    }
}

/// Resend activation code.
///
/// Call to `POST /account/activate/resend`: JSON body, no session required.
#[derive(Debug, Clone)]
pub struct ResendActivationCodeReq {
    pub email: String,
}

impl ResendActivationCodeReq {
    pub fn new(email: String) -> (r: Self)
        ensures
            r.email == email,
    {
        ResendActivationCodeReq { email }
    }

    /// The declared endpoint descriptor.
    pub fn descriptor() -> (d: Descriptor)
        ensures
            d == (Descriptor {
                method: Method::Post,
                placement: Placement::JsonBody,
                requires_auth: false,
            }),
    {
        Descriptor { method: Method::Post, placement: Placement::JsonBody, requires_auth: false }
    }

    /// The static path of the endpoint.
    pub fn path(&self) -> (p: String)
        ensures
            p@ == "/account/activate/resend"@,
    {
        String::from_str("/account/activate/resend")
    }
}

/// Recover account.
///
/// Call to `POST /account/recover`: JSON body, no session required.
#[derive(Debug, Clone)]
pub struct RecoverAccountReq {
    pub email: String,
}

impl RecoverAccountReq {
    pub fn new(email: String) -> (r: Self)
        ensures
            r.email == email,
    {
        RecoverAccountReq { email }
    }

    /// The declared endpoint descriptor.
    pub fn descriptor() -> (d: Descriptor)
        ensures
            d == (Descriptor {
                method: Method::Post,
                placement: Placement::JsonBody,
                requires_auth: false,
            }),
    {
        Descriptor { method: Method::Post, placement: Placement::JsonBody, requires_auth: false }
    }

    /// The static path of the endpoint.
    pub fn path(&self) -> (p: String)
        ensures
            p@ == "/account/recover"@,
    {
        String::from_str("/account/recover")
    }
}

/// Complete account recover.
///
/// Call to `POST /account/recover/{code}`: the recovery code is a templated
/// path parameter; the new password travels in the JSON body; no session
/// required.
#[derive(Debug, Clone)]
pub struct CompleteAccountRecoverReq {
    /// Substituted into the path, not part of the body.
    pub code: String,
    pub new_password: String,
}

impl CompleteAccountRecoverReq {
    pub fn new(code: String, new_password: String) -> (r: Self)
        ensures
            r.code == code,
            r.new_password == new_password,
    {
        CompleteAccountRecoverReq { code, new_password }
    }

    /// The declared endpoint descriptor.
    pub fn descriptor() -> (d: Descriptor)
        ensures
            d == (Descriptor {
                method: Method::Post,
                placement: Placement::JsonBody,
                requires_auth: false,
            }),
    {
        Descriptor { method: Method::Post, placement: Placement::JsonBody, requires_auth: false }
    }

    /// The path with the code substituted in its declared position.
    pub fn path(&self) -> (p: String)
        ensures
            p@ == "/account/recover/"@ + self.code@,
    {
        let mut p = String::from_str("/account/recover/");
        p.append(self.code.as_str());
        p
    }
}

impl Client {
    /// Plan the account-creation call. Creation is unauthenticated: the plan
    /// goes through whether or not a session exists.
    pub fn plan_create_account(&self, request: &CreateAccountReq) -> (r: Result<
        PlannedRequest,
        Errors,
    >)
        ensures
            r is Ok <==> spec_join(self.base_url, "/account/create"@) is Some,
            r matches Ok(p) ==> {
                &&& p.method == Method::Post
                &&& p.placement == Placement::JsonBody
                &&& Some(p.url) == spec_join(self.base_url, "/account/create"@)
                &&& p.bearer is None
                &&& p.path@ == "/account/create"@
            },
            r matches Err(e) ==> e is ParseUrl,
    {
        self.plan(CreateAccountReq::descriptor(), request.path())
    }

    /// Plan the account-activation call.
    pub fn plan_activate_account(&self, request: &ActivateAccountReq) -> (r: Result<
        PlannedRequest,
        Errors,
    >)
        ensures
            r is Ok <==> spec_join(self.base_url, "/account/activate/"@ + request.code@) is Some,
            r matches Ok(p) ==> {
                &&& p.method == Method::Get
                &&& p.placement == Placement::Empty
                &&& Some(p.url) == spec_join(self.base_url, "/account/activate/"@ + request.code@)
                &&& p.bearer is None
                &&& p.path@ == "/account/activate/"@ + request.code@
            },
            r matches Err(e) ==> e is ParseUrl,
    {
        self.plan(ActivateAccountReq::descriptor(), request.path())
    }

    /// Plan the resend-activation-code call.
    pub fn plan_resend_activation_code(&self, request: &ResendActivationCodeReq) -> (r: Result<
        PlannedRequest,
        Errors,
    >)
        ensures
            r is Ok <==> spec_join(self.base_url, "/account/activate/resend"@) is Some,
            r matches Ok(p) ==> {
                &&& p.method == Method::Post
                &&& p.placement == Placement::JsonBody
                &&& Some(p.url) == spec_join(self.base_url, "/account/activate/resend"@)
                &&& p.bearer is None
                &&& p.path@ == "/account/activate/resend"@
            },
            r matches Err(e) ==> e is ParseUrl,
    {
        self.plan(ResendActivationCodeReq::descriptor(), request.path())
    }

    /// Plan the account-recovery call.
    pub fn plan_recover_account(&self, request: &RecoverAccountReq) -> (r: Result<
        PlannedRequest,
        Errors,
    >)
        ensures
            r is Ok <==> spec_join(self.base_url, "/account/recover"@) is Some,
            r matches Ok(p) ==> {
                &&& p.method == Method::Post
                &&& p.placement == Placement::JsonBody
                &&& Some(p.url) == spec_join(self.base_url, "/account/recover"@)
                &&& p.bearer is None
                &&& p.path@ == "/account/recover"@
            },
            r matches Err(e) ==> e is ParseUrl,
    {
        self.plan(RecoverAccountReq::descriptor(), request.path())
    }

    /// Plan the call completing an account recovery.
    pub fn plan_complete_account_recover(&self, request: &CompleteAccountRecoverReq) -> (r: Result<
        PlannedRequest,
        Errors,
    >)
        ensures
            r is Ok <==> spec_join(self.base_url, "/account/recover/"@ + request.code@) is Some,
            r matches Ok(p) ==> {
                &&& p.method == Method::Post
                &&& p.placement == Placement::JsonBody
                &&& Some(p.url) == spec_join(self.base_url, "/account/recover/"@ + request.code@)
                &&& p.bearer is None
                &&& p.path@ == "/account/recover/"@ + request.code@
            },
            r matches Err(e) ==> e is ParseUrl,
    {
        self.plan(CompleteAccountRecoverReq::descriptor(), request.path())
    }
}

} // verus!
