//! The error taxonomy of the client, with its user-facing rendering.

use vstd::prelude::*;
use vstd::string::StringExecFns;

verus! {

/// Classified failures. Configuration errors are fatal at startup;
/// the rest are recoverable per call.
#[derive(Debug, Clone)]
pub enum AppError {
    /// Missing or invalid connection descriptor.
    ConfigError(String),
    /// Transport failure or an unexpected response status.
    ApiError(String),
    /// A referenced board, issue or worklog is absent.
    NotFound(String),
    /// The credential was rejected.
    Unauthorized,
    /// A terminal or stream fault outside the gateway.
    IOError(String),
    /// A placeholder for unfinished gateway operations.
    Unknown(String),
}

/// The display text of an error, as notifications and logs show it.
pub open spec fn error_text(e: AppError) -> Seq<char> {
    match e {
        AppError::ConfigError(s) => "Configuration Error: "@ + s@,
        AppError::ApiError(s) => "Network/API Error: "@ + s@,
        AppError::NotFound(s) => "Resource not found: "@ + s@,
        AppError::Unauthorized => "Unauthorized operation. Check credentials."@,
        AppError::IOError(s) => "Input/Output Error: "@ + s@,
        AppError::Unknown(s) => "Unknown Internal Error: "@ + s@,
    }
}

impl AppError {
    /// Renders the error for the user.
    pub fn display_text(&self) -> (r: String)
        ensures
            r@ == error_text(*self),
    {
        match self {
            AppError::ConfigError(s) => {
                let mut t = String::from_str("Configuration Error: ");
                t.append(s.as_str());
                t
            },
            AppError::ApiError(s) => {
                let mut t = String::from_str("Network/API Error: ");
                t.append(s.as_str());
                t
            },
            AppError::NotFound(s) => {
                let mut t = String::from_str("Resource not found: ");
                t.append(s.as_str());
                t
            },
            AppError::Unauthorized => String::from_str("Unauthorized operation. Check credentials."),
            AppError::IOError(s) => {
                let mut t = String::from_str("Input/Output Error: ");
                t.append(s.as_str());
                t
            },
            AppError::Unknown(s) => {
                let mut t = String::from_str("Unknown Internal Error: ");
                t.append(s.as_str());
                t
            },
        }
    }
}

/// Classifies a gateway response by its HTTP status code: the codes an
/// endpoint accepts mean success; a credential rejection and a missing
/// resource get their own variants; any other code is a transport
/// failure naming the operation and the status rendering.
pub fn classify_status(
    status: u16,
    extra_ok: Option<u16>,
    resource: String,
    failure_prefix: &str,
    status_text: &str,
) -> (r: Result<(), AppError>)
    ensures
        r is Ok <==> (status == 200 || extra_ok == Some(status)),
        !(status == 200 || extra_ok == Some(status)) && status == 401 ==> (r matches Err(e)
            && e is Unauthorized),
        !(status == 200 || extra_ok == Some(status)) && status == 404 ==> (r matches Err(e) && (
        e matches AppError::NotFound(m) && m@ == resource@ + " not found"@)),
        !(status == 200 || extra_ok == Some(status)) && status != 401 && status != 404 ==> (
        r matches Err(e) && (e matches AppError::ApiError(m) && m@ == failure_prefix@
            + status_text@)),
{
    let accepted: bool = match extra_ok {
        Some(code) => status == 200 || status == code,
        None => status == 200,
    };
    if accepted {
        Ok(())
    } else if status == 401 {
        Err(AppError::Unauthorized)
    } else if status == 404 {
        let mut message = resource;
        message.append(" not found");
        Err(AppError::NotFound(message))
    } else {
        let mut message = String::from_str(failure_prefix);
        message.append(status_text);
        Err(AppError::ApiError(message))
    }
}

} // verus!
