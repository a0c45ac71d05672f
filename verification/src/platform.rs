//! The boundary to the platform: the calls that this library asks for, and
//! what the platform answers. The library makes no call itself. It says which
//! call is due, and decides what follows from the answer.

use crate::dword::{
    ScManagerAccess, ServiceAccess, ServiceError, ServiceErrorControl, ServiceStartType,
    ServiceStatus, ServiceType, ERROR_INVALID_PARAMETER,
};
use vstd::prelude::*;

verus! {

/// The configuration record of a service as the platform holds it: numbers,
/// and text as strings of the platform.
#[derive(Clone, Debug, PartialEq, Eq)]
pub struct RawServiceConfig {
    pub service_type: ServiceType,
    pub start_type: ServiceStartType,
    pub error_control: ServiceErrorControl,
    pub binary_path: Vec<u16>,
    pub load_order_group: Vec<u16>,
    pub dependencies: Vec<u16>,
    pub service_start_name: Vec<u16>,
    pub display_name: Vec<u16>,
}

/// What a `RawServiceConfig` holds.
pub struct RawServiceConfigView {
    pub service_type: u32,
    pub start_type: u32,
    pub error_control: u32,
    pub binary_path: Seq<u16>,
    pub load_order_group: Seq<u16>,
    pub dependencies: Seq<u16>,
    pub service_start_name: Seq<u16>,
    pub display_name: Seq<u16>,
}

impl View for RawServiceConfig {
    type V = RawServiceConfigView;

    open spec fn view(&self) -> RawServiceConfigView {
        RawServiceConfigView {
            service_type: self.service_type.code(),
            start_type: self.start_type.code(),
            error_control: self.error_control.code(),
            binary_path: self.binary_path@,
            load_order_group: self.load_order_group@,
            dependencies: self.dependencies@,
            service_start_name: self.service_start_name@,
            display_name: self.display_name@,
        }
    }
}

/// What the platform needs to register a new service. The text is in strings
/// of the platform; no list of dependencies means that the service has none.
#[derive(Clone, Debug, PartialEq, Eq)]
pub struct Registration {
    pub name: Vec<u16>,
    pub display_name: Vec<u16>,
    pub access: ServiceAccess,
    pub service_type: ServiceType,
    pub start_type: ServiceStartType,
    pub error_control: ServiceErrorControl,
    pub binary_path: Vec<u16>,
    pub dependencies: Option<Vec<u16>>,
}

/// What a `Registration` holds.
pub struct RegistrationView {
    pub name: Seq<u16>,
    pub display_name: Seq<u16>,
    pub access: u32,
    pub service_type: u32,
    pub start_type: u32,
    pub error_control: u32,
    pub binary_path: Seq<u16>,
    pub dependencies: Option<Seq<u16>>,
}

impl View for Registration {
    type V = RegistrationView;

    open spec fn view(&self) -> RegistrationView {
        RegistrationView {
            name: self.name@,
            display_name: self.display_name@,
            access: self.access.bits(),
            service_type: self.service_type.code(),
            start_type: self.start_type.code(),
            error_control: self.error_control.code(),
            binary_path: self.binary_path@,
            dependencies: match self.dependencies {
                Some(units) => Some(units@),
                None => None,
            },
        }
    }
}

/// One call to the platform.
#[derive(Clone, Debug, PartialEq, Eq)]
#[allow(inconsistent_fields)]
pub enum PlatformCall {
    /// Open the service control manager of this machine, with its default
    /// database.
    OpenManager { access: ScManagerAccess },
    /// Open the service of that name.
    OpenService { manager: isize, name: Vec<u16>, access: ServiceAccess },
    /// Register a new service, without load order group, tag, account or
    /// password.
    CreateService { manager: isize, registration: Registration },
    /// Ask for the current status of the service.
    QueryStatus { service: isize },
    /// Ask for the configuration of the service, with a buffer of `capacity`
    /// bytes.
    QueryConfig { service: isize, capacity: u32 },
    /// Replace the configuration of the service by `config`, without a tag;
    /// no password leaves the password as it is.
    ChangeConfig { service: isize, config: RawServiceConfig, password: Option<Vec<u16>> },
    /// Start the service, without arguments.
    StartService { service: isize },
    /// Mark the service for deletion.
    DeleteService { service: isize },
    /// Close a handle.
    CloseHandle { handle: isize },
}

/// What a `PlatformCall` holds.
pub enum PlatformCallView {
    OpenManager { access: u32 },
    OpenService { manager: isize, name: Seq<u16>, access: u32 },
    CreateService { manager: isize, registration: RegistrationView },
    QueryStatus { service: isize },
    QueryConfig { service: isize, capacity: u32 },
    ChangeConfig { service: isize, config: RawServiceConfigView, password: Option<Seq<u16>> },
    StartService { service: isize },
    DeleteService { service: isize },
    CloseHandle { handle: isize },
}

impl View for PlatformCall {
    type V = PlatformCallView;

    open spec fn view(&self) -> PlatformCallView {
        match *self {
            PlatformCall::OpenManager { access } => PlatformCallView::OpenManager {
                access: access.bits(),
            },
            PlatformCall::OpenService { manager, name, access } => PlatformCallView::OpenService {
                manager,
                name: name@,
                access: access.bits(),
            },
            PlatformCall::CreateService {
                manager,
                registration,
            } => PlatformCallView::CreateService { manager, registration: registration@ },
            PlatformCall::QueryStatus { service } => PlatformCallView::QueryStatus { service },
            PlatformCall::QueryConfig { service, capacity } => PlatformCallView::QueryConfig {
                service,
                capacity,
            },
            PlatformCall::ChangeConfig {
                service,
                config,
                password,
            } => PlatformCallView::ChangeConfig {
                service,
                config: config@,
                password: match password {
                    Some(units) => Some(units@),
                    None => None,
                },
            },
            PlatformCall::StartService { service } => PlatformCallView::StartService { service },
            PlatformCall::DeleteService { service } => PlatformCallView::DeleteService { service },
            PlatformCall::CloseHandle { handle } => PlatformCallView::CloseHandle { handle },
        }
    }
}

/// What the platform answered to a call.
#[derive(Clone, Debug, PartialEq, Eq)]
pub enum PlatformReply {
    /// The call succeeded and gave a handle.
    Handle(isize),
    /// The call succeeded and gave the current state of the service.
    Status(ServiceStatus),
    /// The call succeeded and wrote a configuration record; `needed` is the
    /// size in bytes that the platform said the record takes.
    Config { needed: u32, record: RawServiceConfig },
    /// The call succeeded, with nothing to give.
    Done,
    /// The call failed with that last error. `needed` is the size in bytes
    /// that a query for the configuration reported on failing, 0 after any
    /// other call.
    Failed { error: ServiceError, needed: u32 },
}

/// What a `PlatformReply` holds.
pub enum PlatformReplyView {
    Handle(isize),
    Status(u32),
    Config { needed: u32, record: RawServiceConfigView },
    Done,
    Failed { error: u32, needed: u32 },
}

impl View for PlatformReply {
    type V = PlatformReplyView;

    open spec fn view(&self) -> PlatformReplyView {
        match *self {
            PlatformReply::Handle(handle) => PlatformReplyView::Handle(handle),
            PlatformReply::Status(status) => PlatformReplyView::Status(status.code()),
            PlatformReply::Config { needed, record } => PlatformReplyView::Config {
                needed,
                record: record@,
            },
            PlatformReply::Done => PlatformReplyView::Done,
            PlatformReply::Failed { error, needed } => PlatformReplyView::Failed {
                error: error.code(),
                needed,
            },
        }
    }
}

impl PlatformReplyView {
    /// The error that a reply stands for where it does not bring what the call
    /// was made for: the last error of a failed call, and an invalid parameter
    /// for an answer to some other call.
    pub open spec fn failure(self) -> u32 {
        match self {
            PlatformReplyView::Failed { error, needed } => error,
            _ => ERROR_INVALID_PARAMETER,
        }
    }
}

impl PlatformReply {
    /// The error that this reply stands for where it does not bring what the
    /// call was made for.
    pub fn failure(&self) -> (error: ServiceError)
        ensures
            error.code() == self@.failure(),
    {
        match self {
            PlatformReply::Failed { error, needed } => *error,
            _ => ServiceError::ERROR_INVALID_PARAMETER(),
        }
    }
}

} // verus!
