//! The identity of the client of a session: how it logged in, and its UUID.

use vstd::prelude::*;
use crate::defines::{TEE_LOGIN_APPLICATION, TEE_LOGIN_APPLICATION_GROUP, TEE_LOGIN_APPLICATION_USER, TEE_LOGIN_GROUP, TEE_LOGIN_PUBLIC, TEE_LOGIN_TRUSTED_APP, TEE_LOGIN_USER};
use crate::uuid::Uuid;

verus! {

/// How a client logged in to a session.
#[derive(Clone, Copy, Debug, PartialEq, Eq, Structural)]
pub enum LoginType {
    Public,
    User,
    Group,
    Application,
    ApplicationUser,
    ApplicationGroup,
    TrustedApp,
}

/// The login code of a login type.
pub open spec fn login_code(t: LoginType) -> u32 {
    match t {
        LoginType::Public => TEE_LOGIN_PUBLIC,
        LoginType::User => TEE_LOGIN_USER,
        LoginType::Group => TEE_LOGIN_GROUP,
        LoginType::Application => TEE_LOGIN_APPLICATION,
        LoginType::ApplicationUser => TEE_LOGIN_APPLICATION_USER,
        LoginType::ApplicationGroup => TEE_LOGIN_APPLICATION_GROUP,
        LoginType::TrustedApp => TEE_LOGIN_TRUSTED_APP,
    }
}

/// `code` is the login code of some login type.
pub open spec fn is_login_code(code: u32) -> bool {
    exists|t: LoginType| login_code(t) == code
}

/// The name of a login type.
pub open spec fn login_name(t: LoginType) -> Seq<char> {
    match t {
        LoginType::Public => "Public"@,
        LoginType::User => "User"@,
        LoginType::Group => "Group"@,
        LoginType::Application => "Application"@,
        LoginType::ApplicationUser => "ApplicationUser"@,
        LoginType::ApplicationGroup => "ApplicationGroup"@,
        LoginType::TrustedApp => "TrustedApp"@,
    }
}

impl LoginType {
    /// The login code.
    pub fn code(&self) -> (v: u32)
        ensures
            v == login_code(*self),
    {
        match self {
            LoginType::Public => TEE_LOGIN_PUBLIC,
            LoginType::User => TEE_LOGIN_USER,
            LoginType::Group => TEE_LOGIN_GROUP,
            LoginType::Application => TEE_LOGIN_APPLICATION,
            LoginType::ApplicationUser => TEE_LOGIN_APPLICATION_USER,
            LoginType::ApplicationGroup => TEE_LOGIN_APPLICATION_GROUP,
            LoginType::TrustedApp => TEE_LOGIN_TRUSTED_APP,
        }
    }

    /// The login type of a code; `None` for a code of no login type.
    pub fn from_code(code: u32) -> (t: Option<LoginType>)
        ensures
            t matches Some(l) ==> login_code(l) == code,
            t is None <==> !is_login_code(code),
    {
        let r = if code == TEE_LOGIN_PUBLIC {
            Some(LoginType::Public)
        } else if code == TEE_LOGIN_USER {
            Some(LoginType::User)
        } else if code == TEE_LOGIN_GROUP {
            Some(LoginType::Group)
        } else if code == TEE_LOGIN_APPLICATION {
            Some(LoginType::Application)
        } else if code == TEE_LOGIN_APPLICATION_USER {
            Some(LoginType::ApplicationUser)
        } else if code == TEE_LOGIN_APPLICATION_GROUP {
            Some(LoginType::ApplicationGroup)
        } else if code == TEE_LOGIN_TRUSTED_APP {
            Some(LoginType::TrustedApp)
        } else {
            None
        };
        proof {
            if r is None {
                assert forall|t: LoginType| login_code(t) != code by {
                    match t {
                        LoginType::Public => {},
                        LoginType::User => {},
                        LoginType::Group => {},
                        LoginType::Application => {},
                        LoginType::ApplicationUser => {},
                        LoginType::ApplicationGroup => {},
                        LoginType::TrustedApp => {},
                    }
                }
            } else {
                assert(login_code(r->0) == code);
            }
        }
        r
    }

    /// The name of the login type, as its `Display` writes it.
    pub fn as_str(&self) -> (s: &'static str)
        ensures
            s@ == login_name(*self),
    {
        match self {
            LoginType::Public => {
                proof { reveal_strlit("Public"); }
                "Public"
            },
            LoginType::User => {
                proof { reveal_strlit("User"); }
                "User"
            },
            LoginType::Group => {
                proof { reveal_strlit("Group"); }
                "Group"
            },
            LoginType::Application => {
                proof { reveal_strlit("Application"); }
                "Application"
            },
            LoginType::ApplicationUser => {
                proof { reveal_strlit("ApplicationUser"); }
                "ApplicationUser"
            },
            LoginType::ApplicationGroup => {
                proof { reveal_strlit("ApplicationGroup"); }
                "ApplicationGroup"
            },
            LoginType::TrustedApp => {
                proof { reveal_strlit("TrustedApp"); }
                "TrustedApp"
            },
        }
    }
}

/// Distinct login types have distinct codes, and each is the type of its
/// own code.
pub proof fn lemma_login_code_roundtrip(a: LoginType, b: LoginType)
    ensures
        login_code(a) == login_code(b) ==> a == b,
        is_login_code(login_code(a)),
{
}

/// The identity of a client, as the TEE reports it.
#[derive(Clone, Copy)]
pub struct Identity {
    login: u32,
    uuid: Uuid,
}

impl Identity {
    pub closed spec fn spec_login(&self) -> u32 {
        self.login
    }

    pub closed spec fn spec_uuid(&self) -> Uuid {
        self.uuid
    }

    /// The identity of the TEE's login code and UUID.
    pub fn from_raw(login: u32, uuid: Uuid) -> (i: Identity)
        ensures
            i.spec_login() == login,
            i.spec_uuid() == uuid,
    {
        Identity { login, uuid }
    }

    /// How the client logged in. The TEE only reports login codes of a
    /// login type.
    pub fn login_type(&self) -> (t: LoginType)
        requires
            is_login_code(self.spec_login()),
        ensures
            login_code(t) == self.spec_login(),
    {
        match LoginType::from_code(self.login) {
            Some(t) => t,
            None => {
                proof {
                    assert(false);
                }
                LoginType::Public
            },
        }
    }

    /// The client's UUID.
    pub fn uuid(&self) -> (u: Uuid)
        ensures
            u == self.spec_uuid(),
    {
        self.uuid
    }
}

} // verus!
