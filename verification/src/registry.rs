//! Failures of installing or removing the service registration, by kind.

use vstd::prelude::*;

verus! {

/// Operating-system code for a caller that lacks the privilege.
pub const CODE_ACCESS_DENIED: i32 = 5;

/// Operating-system code for a service name that is not registered.
pub const CODE_SERVICE_DOES_NOT_EXIST: i32 = 1060;

/// Operating-system code for a service name that is registered already.
pub const CODE_SERVICE_EXISTS: i32 = 1073;

/// Why the service control manager refused to install or remove a service.
#[derive(Clone, Copy, Debug, PartialEq, Eq)]
pub enum RegistryErrorKind {
    AlreadyExists,
    AccessDenied,
    NotFound,
    Other,
}

/// The kind that an operating-system error code stands for; a failure
/// without a code, or with any other code, is of the kind `Other`.
pub open spec fn kind_of(code: Option<i32>) -> RegistryErrorKind {
    if code == Some(CODE_SERVICE_EXISTS) {
        RegistryErrorKind::AlreadyExists
    } else if code == Some(CODE_ACCESS_DENIED) {
        RegistryErrorKind::AccessDenied
    } else if code == Some(CODE_SERVICE_DOES_NOT_EXIST) {
        RegistryErrorKind::NotFound
    } else {
        RegistryErrorKind::Other
    }
}

/// Sorts a failed installation or removal by the code the operating system gave.
pub fn classify(code: Option<i32>) -> (kind: RegistryErrorKind)
    ensures
        kind == kind_of(code),
{
    match code {
        Some(value) => {
            if value == CODE_SERVICE_EXISTS {
                RegistryErrorKind::AlreadyExists
            } else if value == CODE_ACCESS_DENIED {
                RegistryErrorKind::AccessDenied
            } else if value == CODE_SERVICE_DOES_NOT_EXIST {
                RegistryErrorKind::NotFound
            } else {
                RegistryErrorKind::Other
            }
        },
        None => RegistryErrorKind::Other,
    }
}

} // verus!
