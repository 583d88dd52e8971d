//! The error taxonomy.
//!
//! A server reports failure as a numeric code and a message;
//! [`ApiError::from_code`] maps that pair onto a closed set of variants.
//! Codes outside the documented set degrade to [`ApiError::Generic`]
//! with the message preserved — divergent server implementations are
//! expected, so the mapping never rejects a code.

use vstd::prelude::*;
use vstd::string::StringExecFns;

verus! {

/// The errors a server may report at the protocol level.
#[derive(Debug, Clone, PartialEq, Eq)]
pub enum ApiError {
    /// A generic error, carrying the server's message.
    Generic(String),
    /// A required parameter is missing.
    MissingParameter,
    /// Incompatible protocol version; the client must upgrade.
    ClientMustUpgrade,
    /// Incompatible protocol version; the server must upgrade.
    ServerMustUpgrade,
    /// Wrong username or password.
    WrongAuth,
    /// Token authentication is not supported for LDAP users.
    Ldap,
    /// The user is not authorized for the operation, with the server's
    /// message.
    NotAuthorized(String),
    /// The server's trial period is over. Forks of the original server
    /// never report this.
    TrialExpired,
    /// The requested data was not found.
    NotFound,
}

/// The numeric code of each error variant.
pub open spec fn spec_error_code(e: ApiError) -> u16 {
    match e {
        ApiError::Generic(_) => 0,
        ApiError::MissingParameter => 10,
        ApiError::ClientMustUpgrade => 20,
        ApiError::ServerMustUpgrade => 30,
        ApiError::WrongAuth => 40,
        ApiError::Ldap => 41,
        ApiError::NotAuthorized(_) => 50,
        ApiError::TrialExpired => 60,
        ApiError::NotFound => 70,
    }
}

/// The variant a reported code and message map to. Every code outside
/// the documented set maps to `Generic` with the message preserved.
pub open spec fn spec_error_of(code: u64, message: String) -> ApiError {
    if code == 20 {
        ApiError::ClientMustUpgrade
    } else if code == 30 {
        ApiError::ServerMustUpgrade
    } else if code == 40 {
        ApiError::WrongAuth
    } else if code == 41 {
        ApiError::Ldap
    } else if code == 50 {
        ApiError::NotAuthorized(message)
    } else if code == 60 {
        ApiError::TrialExpired
    } else if code == 70 {
        ApiError::NotFound
    } else {
        ApiError::Generic(message)
    }
}

/// The human-readable text of each error variant.
pub open spec fn spec_error_text(e: ApiError) -> Seq<char> {
    match e {
        ApiError::Generic(m) => "Generic error: "@ + m@,
        ApiError::MissingParameter => "Missing a required parameter"@,
        ApiError::ClientMustUpgrade => "Incompatible protocol; client must upgrade"@,
        ApiError::ServerMustUpgrade => "Incompatible protocol; server must upgrade"@,
        ApiError::WrongAuth => "Wrong username or password"@,
        ApiError::Ldap => "Token authentication not supported for LDAP users"@,
        ApiError::NotAuthorized(m) => "Not authorized: "@ + m@,
        ApiError::TrialExpired => "Subsonic trial period has expired"@,
        ApiError::NotFound => "Requested data not found"@,
    }
}

impl ApiError {
    /// Maps a reported code and message onto the variant set. Never
    /// rejects a code: anything undocumented becomes `Generic` with the
    /// message preserved.
    pub fn from_code(code: u64, message: String) -> (r: ApiError)
        ensures
            r == spec_error_of(code, message),
    {
        if code == 20 {
            ApiError::ClientMustUpgrade
        } else if code == 30 {
            ApiError::ServerMustUpgrade
        } else if code == 40 {
            ApiError::WrongAuth
        } else if code == 41 {
            ApiError::Ldap
        } else if code == 50 {
            ApiError::NotAuthorized(message)
        } else if code == 60 {
            ApiError::TrialExpired
        } else if code == 70 {
            ApiError::NotFound
        } else {
            ApiError::Generic(message)
        }
    }

    /// Returns the code number of the error.
    pub fn as_u16(&self) -> (r: u16)
        ensures
            r == spec_error_code(*self),
    {
        match *self {
            ApiError::Generic(_) => 0,
            ApiError::MissingParameter => 10,
            ApiError::ClientMustUpgrade => 20,
            ApiError::ServerMustUpgrade => 30,
            ApiError::WrongAuth => 40,
            ApiError::Ldap => 41,
            ApiError::NotAuthorized(_) => 50,
            ApiError::TrialExpired => 60,
            ApiError::NotFound => 70,
        }
    }

    /// Renders the error as human-readable text.
    pub fn message(&self) -> (r: String)
        ensures
            r@ == spec_error_text(*self),
    {
        match self {
            ApiError::Generic(m) => {
                let mut s = String::from_str("Generic error: ");
                s.append(m.as_str());
                s
            },
            ApiError::MissingParameter => String::from_str("Missing a required parameter"),
            ApiError::ClientMustUpgrade => String::from_str(
                "Incompatible protocol; client must upgrade",
            ),
            ApiError::ServerMustUpgrade => String::from_str(
                "Incompatible protocol; server must upgrade",
            ),
            ApiError::WrongAuth => String::from_str("Wrong username or password"),
            ApiError::Ldap => String::from_str(
                "Token authentication not supported for LDAP users",
            ),
            ApiError::NotAuthorized(m) => {
                let mut s = String::from_str("Not authorized: ");
                s.append(m.as_str());
                s
            },
            ApiError::TrialExpired => String::from_str("Subsonic trial period has expired"),
            ApiError::NotFound => String::from_str("Requested data not found"),
        }
    }
}

/// What can go wrong when reading a base address.
#[derive(Debug, Clone, PartialEq, Eq)]
pub enum UrlError {
    /// The scheme of the address could not be determined. The address
    /// probably needs an explicit `http://` or `https://` prefix.
    Scheme,
    /// The address names no host.
    Address,
    /// The address failed to parse.
    ParsingError,
}

/// The errors a call may end in.
#[derive(Debug, Clone, PartialEq, Eq)]
pub enum Error {
    /// The server answered outside the protocol, with this HTTP status.
    Connection(u16),
    /// The base address was not usable.
    Url(UrlError),
    /// The server reported a protocol error.
    Api(ApiError),
    /// A one-off error.
    Other(&'static str),
}

} // verus!
