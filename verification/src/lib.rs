//! A typed client for the service control manager: the facility of the
//! platform that registers, starts, reconfigures, inspects and removes
//! services.
//!
//! The library makes no call to the platform. Each operation is a
//! [`session::Session`]: it names the call that is due, takes the platform's
//! answer, and names the next call or the outcome. Whoever drives a session
//! makes the calls, one at a time, and hands each answer back.

use vstd::prelude::*;

pub mod catalog;
pub mod config;
pub mod dword;
pub mod handle;
pub mod platform;
pub mod session;
pub mod wide;

use crate::config::{replace_call, replaceable, ConfigFetch, ServiceConfig, ServiceConfigView};
use crate::dword::{
    ScManagerAccess, ServiceAccess, ServiceError, ServiceErrorControl, ServiceStartType,
    ServiceType, ERROR_INVALID_NAME, ERROR_INVALID_PARAMETER, SC_MANAGER_ALL_ACCESS,
    SC_MANAGER_CONNECT, SERVICE_ALL_ACCESS,
};
use crate::handle::ResourceHandle;
use crate::platform::{PlatformCall, PlatformCallView, Registration, RegistrationView};
use crate::session::{
    begin, first_call, refuse, refused, ServiceRequest, ServiceRequestView, State, StateView, Step,
    StepView,
};
use crate::wide::{
    encode_wide, encode_wide_list, has_nul, listable, optional_text, wide, wide_list,
};

verus! {

/// A service that is open: the handle to the service control manager that it
/// was opened through, the handle to the service, the name that the service is
/// registered under, and the configuration of the service as it was last
/// fetched. The name is fixed; the configuration, the display name in it, is
/// the caller's to change and to write back.
///
/// The handles are released by [`WindowsService::close`], the service first,
/// the manager after it.
#[derive(Debug, PartialEq, Eq)]
pub struct WindowsService {
    sc_manager_handle: ResourceHandle,
    service_handle: ResourceHandle,
    name: String,
    pub config: ServiceConfig,
}

/// What a `WindowsService` holds.
pub struct WindowsServiceView {
    pub manager: isize,
    pub service: isize,
    pub name: Seq<char>,
    pub config: ServiceConfigView,
}

impl View for WindowsService {
    type V = WindowsServiceView;

    open(crate) spec fn view(&self) -> WindowsServiceView {
        WindowsServiceView {
            manager: self.sc_manager_handle@,
            service: self.service_handle@,
            name: self.name@,
            config: self.config@,
        }
    }
}

/// The rights to the service control manager that a caller asks for, or
/// `default` where the caller names none.
pub open spec fn manager_rights(access: Option<ScManagerAccess>, default: u32) -> u32 {
    match access {
        Some(access) => access.bits(),
        None => default,
    }
}

/// The rights to a service that a caller asks for, or `default` where the
/// caller names none.
pub open spec fn service_rights(access: Option<ServiceAccess>, default: u32) -> u32 {
    match access {
        Some(access) => access.bits(),
        None => default,
    }
}

/// The texts of an optional list of names.
pub open spec fn optional_texts(names: Option<Vec<&str>>) -> Option<Seq<Seq<char>>> {
    match names {
        Some(names) => Some(names.deep_view()),
        None => None,
    }
}

/// How opening the service `name` starts: with the call that opens the
/// service control manager, unless the name holds the character zero and so
/// is no name that the platform could be given.
pub open spec fn open_plan(name: Seq<char>, service_access: u32, manager_access: u32) -> StepView {
    if has_nul(name) {
        refused(ERROR_INVALID_NAME)
    } else {
        first_call(
            StateView::OpeningManager {
                name,
                request: ServiceRequestView::Open { name: wide(name), access: service_access },
            },
            PlatformCallView::OpenManager { access: manager_access },
        )
    }
}

/// How creating the service `name` starts: with the call that opens the
/// service control manager, unless a text cannot be written for the platform.
/// A service without a display name of its own is shown by its name.
pub open spec fn create_plan(
    name: Seq<char>,
    display_name: Option<Seq<char>>,
    manager_access: u32,
    service_access: u32,
    service_type: u32,
    start_type: u32,
    error_control: u32,
    binary_path: Seq<char>,
    dependencies: Option<Seq<Seq<char>>>,
) -> StepView {
    let shown = match display_name {
        Some(text) => text,
        None => name,
    };
    if has_nul(name) {
        refused(ERROR_INVALID_NAME)
    } else if has_nul(shown) || has_nul(binary_path) || (dependencies matches Some(names)
        && !listable(names)) {
        refused(ERROR_INVALID_PARAMETER)
    } else {
        first_call(
            StateView::OpeningManager {
                name,
                request: ServiceRequestView::Create(
                    RegistrationView {
                        name: wide(name),
                        display_name: wide(shown),
                        access: service_access,
                        service_type,
                        start_type,
                        error_control,
                        binary_path: wide(binary_path),
                        dependencies: match dependencies {
                            Some(names) => Some(wide_list(names)),
                            None => None,
                        },
                    },
                ),
            },
            PlatformCallView::OpenManager { access: manager_access },
        )
    }
}

/// How replacing the configuration of an open service starts: with the call
/// that submits every field of the configuration that the caller holds,
/// unless it cannot be written for the platform.
pub open spec fn update_plan(service: WindowsServiceView, password: Option<Seq<char>>) -> StepView {
    if replaceable(service.config, password) {
        first_call(
            StateView::ChangingConfig,
            replace_call(service.service, service.config, password),
        )
    } else {
        refused(ERROR_INVALID_PARAMETER)
    }
}

impl WindowsService {
    /// The name that the service is registered under.
    pub fn name(&self) -> (name: &str)
        ensures
            name@ == self@.name,
    {
        self.name.as_str()
    }

    /// Opens the service of that name: opens the service control manager,
    /// opens the service through it, and fetches the configuration of the
    /// service. Without rights named, it asks for the right to connect to the
    /// manager and for all access to the service.
    pub fn open(
        name: &str,
        service_access: Option<ServiceAccess>,
        sc_manager_access: Option<ScManagerAccess>,
    ) -> (step: Step)
        ensures
            step@ == open_plan(
                name@,
                service_rights(service_access, SERVICE_ALL_ACCESS),
                manager_rights(sc_manager_access, SC_MANAGER_CONNECT),
            ),
    {
        let manager_access = match sc_manager_access {
            Some(access) => access,
            None => ScManagerAccess::SC_MANAGER_CONNECT(),
        };
        let access = match service_access {
            Some(access) => access,
            None => ServiceAccess::SERVICE_ALL_ACCESS(),
        };
        match encode_wide(name) {
            Some(units) => begin(
                State::OpeningManager {
                    name: name.to_owned(),
                    request: ServiceRequest::Open { name: units, access },
                },
                PlatformCall::OpenManager { access: manager_access },
            ),
            None => refuse(ServiceError::ERROR_INVALID_NAME()),
        }
    }

    /// Creates a service: opens the service control manager, registers the
    /// service with it, and fetches the configuration of the new service.
    /// Without rights named, it asks for all access to the manager and to the
    /// service.
    pub fn new(
        name: &str,
        display_name: Option<&str>,
        sc_manager_access: Option<ScManagerAccess>,
        service_access: Option<ServiceAccess>,
        service_type: ServiceType,
        service_start_type: ServiceStartType,
        error_control: ServiceErrorControl,
        binary_path: &str,
        dependencies: Option<Vec<&str>>,
    ) -> (step: Step)
        ensures
            step@ == create_plan(
                name@,
                optional_text(display_name),
                manager_rights(sc_manager_access, SC_MANAGER_ALL_ACCESS),
                service_rights(service_access, SERVICE_ALL_ACCESS),
                service_type.code(),
                service_start_type.code(),
                error_control.code(),
                binary_path@,
                optional_texts(dependencies),
            ),
    {
        let manager_access = match sc_manager_access {
            Some(access) => access,
            None => ScManagerAccess::SC_MANAGER_ALL_ACCESS(),
        };
        let access = match service_access {
            Some(access) => access,
            None => ServiceAccess::SERVICE_ALL_ACCESS(),
        };
        let shown: &str = match display_name {
            Some(text) => text,
            None => name,
        };
        let units = match encode_wide(name) {
            Some(units) => units,
            None => { return refuse(ServiceError::ERROR_INVALID_NAME()); },
        };
        let display_name = match encode_wide(shown) {
            Some(units) => units,
            None => { return refuse(ServiceError::ERROR_INVALID_PARAMETER()); },
        };
        let binary_path = match encode_wide(binary_path) {
            Some(units) => units,
            None => { return refuse(ServiceError::ERROR_INVALID_PARAMETER()); },
        };
        let dependencies = match dependencies {
            Some(names) => match encode_wide_list(&names) {
                Some(units) => Some(units),
                None => { return refuse(ServiceError::ERROR_INVALID_PARAMETER()); },
            },
            None => None,
        };
        begin(
            State::OpeningManager {
                name: name.to_owned(),
                request: ServiceRequest::Create(
                    Registration {
                        name: units,
                        display_name,
                        access,
                        service_type,
                        start_type: service_start_type,
                        error_control,
                        binary_path,
                        dependencies,
                    },
                ),
            },
            PlatformCall::OpenManager { access: manager_access },
        )
    }

    /// Asks the platform for the current status of the service: one call,
    /// whose answer is the status as the platform has it then.
    pub fn query_service_status(&self) -> (step: Step)
        ensures
            step@ == first_call(
                StateView::QueryingStatus,
                PlatformCallView::QueryStatus { service: self@.service },
            ),
    {
        begin(
            State::QueryingStatus,
            PlatformCall::QueryStatus { service: self.service_handle.raw() },
        )
    }

    /// Fetches the configuration of the service anew, as `open` does; it is
    /// for the caller to keep what comes back.
    pub fn fetch_config(&self) -> (step: Step)
        ensures
            step@ == first_call(
                StateView::Refetching { service: self@.service, fetch: ConfigFetch::begin() },
                PlatformCallView::QueryConfig {
                    service: self@.service,
                    capacity: ConfigFetch::begin().capacity,
                },
            ),
    {
        let fetch = ConfigFetch::begin();
        let call = fetch.query(&self.service_handle);
        begin(State::Refetching { service: self.service_handle.raw(), fetch }, call)
    }

    /// Starts the service. A service that runs already is left as it is, and
    /// the request counts as done.
    pub fn start_service(&self) -> (step: Step)
        ensures
            step@ == first_call(
                StateView::Starting,
                PlatformCallView::StartService { service: self@.service },
            ),
    {
        begin(State::Starting, PlatformCall::StartService { service: self.service_handle.raw() })
    }

    /// Marks the service for deletion. The platform removes it once every
    /// handle to it is closed.
    pub fn delete_service(&self) -> (step: Step)
        ensures
            step@ == first_call(
                StateView::Deleting,
                PlatformCallView::DeleteService { service: self@.service },
            ),
    {
        begin(State::Deleting, PlatformCall::DeleteService { service: self.service_handle.raw() })
    }

    /// Replaces the configuration of the service by the one that `config`
    /// holds now, every field of it, and sets a new password where one is
    /// given.
    pub fn update_service_config(&self, passwd: Option<&str>) -> (step: Step)
        ensures
            step@ == update_plan(self@, optional_text(passwd)),
    {
        match self.config.replace(&self.service_handle, passwd) {
            Ok(call) => begin(State::ChangingConfig, call),
            Err(error) => refuse(error),
        }
    }

    /// Gives the service up: closes the handle to the service, then the
    /// handle to the service control manager, whatever comes of the first.
    pub fn close(self) -> (step: Step)
        ensures
            step@ == first_call(
                StateView::Releasing { then: Some(self@.manager), error: None },
                PlatformCallView::CloseHandle { handle: self@.service },
            ),
    {
        let WindowsService { sc_manager_handle, service_handle, .. } = self;
        let call = service_handle.release();
        begin(State::Releasing { then: Some(sc_manager_handle), error: None }, call)
    }
}

} // verus!
