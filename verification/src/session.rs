//! Operations as sessions: what an operation waits for, what follows from
//! each answer of the platform, and how it ends.

use crate::config::{
    ConfigFetch, FetchStep, FetchStepView, ServiceConfig, ServiceConfigView,
    INITIAL_CONFIG_CAPACITY,
};
use crate::dword::{
    error_kind, ServiceAccess, ServiceError, ServiceErrorKind, ServiceStatus,
    ERROR_DUPLICATE_SERVICE_NAME, ERROR_SERVICE_ALREADY_RUNNING, ERROR_SERVICE_EXISTS,
};
use crate::handle::ResourceHandle;
use crate::platform::{
    PlatformCall, PlatformCallView, PlatformReply, PlatformReplyView, Registration,
    RegistrationView,
};
use crate::{WindowsService, WindowsServiceView};
use vstd::prelude::*;

verus! {

/// What is asked of the service control manager once it is open.
#[derive(Debug, PartialEq, Eq)]
pub(crate) enum ServiceRequest {
    Open { name: Vec<u16>, access: ServiceAccess },
    Create(Registration),
}

/// What a session asks of the service control manager once it is open: to
/// open the service of a name, or to register a new one.
pub enum ServiceRequestView {
    Open { name: Seq<u16>, access: u32 },
    Create(RegistrationView),
}

impl View for ServiceRequest {
    type V = ServiceRequestView;

    open(crate) spec fn view(&self) -> ServiceRequestView {
        match *self {
            ServiceRequest::Open { name, access } => ServiceRequestView::Open {
                name: name@,
                access: access.bits(),
            },
            ServiceRequest::Create(registration) => ServiceRequestView::Create(registration@),
        }
    }
}

/// Where a session stands: the call whose answer it waits for.
#[derive(Debug, PartialEq, Eq)]
#[allow(inconsistent_fields)]
pub(crate) enum State {
    OpeningManager { name: String, request: ServiceRequest },
    AcquiringService { name: String, manager: ResourceHandle },
    FetchingConfig {
        name: String,
        manager: ResourceHandle,
        service: ResourceHandle,
        fetch: ConfigFetch,
    },
    Releasing { then: Option<ResourceHandle>, error: Option<ServiceError> },
    QueryingStatus,
    Refetching { service: isize, fetch: ConfigFetch },
    ChangingConfig,
    Deleting,
    Starting,
}

/// Where a session stands: the call whose answer it waits for, with the
/// handles that it owns meanwhile.
pub enum StateView {
    /// The service control manager is being opened, for the service `name`;
    /// `request` comes next.
    OpeningManager { name: Seq<char>, request: ServiceRequestView },
    /// The service `name` is being opened or created through `manager`.
    AcquiringService { name: Seq<char>, manager: isize },
    /// The configuration of the service that was just opened or created is
    /// being fetched.
    FetchingConfig { name: Seq<char>, manager: isize, service: isize, fetch: ConfigFetch },
    /// A handle is being closed. `then` is closed after it; after that the
    /// session ends, in failure with `error` where there is one.
    Releasing { then: Option<isize>, error: Option<u32> },
    /// The status of a service is being queried.
    QueryingStatus,
    /// The configuration of a service that is open is being fetched anew.
    Refetching { service: isize, fetch: ConfigFetch },
    /// The configuration of a service is being replaced.
    ChangingConfig,
    /// A service is being marked for deletion.
    Deleting,
    /// A service is being started.
    Starting,
}

impl View for State {
    type V = StateView;

    open(crate) spec fn view(&self) -> StateView {
        match *self {
            State::OpeningManager { name, request } => StateView::OpeningManager {
                name: name@,
                request: request@,
            },
            State::AcquiringService { name, manager } => StateView::AcquiringService {
                name: name@,
                manager: manager@,
            },
            State::FetchingConfig { name, manager, service, fetch } => StateView::FetchingConfig {
                name: name@,
                manager: manager@,
                service: service@,
                fetch,
            },
            State::Releasing { then, error } => StateView::Releasing {
                then: match then {
                    Some(handle) => Some(handle@),
                    None => None,
                },
                error: match error {
                    Some(error) => Some(error.code()),
                    None => None,
                },
            },
            State::QueryingStatus => StateView::QueryingStatus,
            State::Refetching { service, fetch } => StateView::Refetching { service, fetch },
            State::ChangingConfig => StateView::ChangingConfig,
            State::Deleting => StateView::Deleting,
            State::Starting => StateView::Starting,
        }
    }
}

/// The raw codes of a sequence of errors.
pub open spec fn codes(errors: Seq<ServiceError>) -> Seq<u32> {
    Seq::new(errors.len(), |i: int| errors[i].code())
}

/// An operation under way: the call whose answer it waits for, and the
/// failures met so far that do not stop it.
#[derive(Debug, PartialEq, Eq)]
pub struct Session {
    pub(crate) state: State,
    pub(crate) diagnostics: Vec<ServiceError>,
}

/// What a `Session` holds.
pub struct SessionView {
    pub state: StateView,
    pub diagnostics: Seq<u32>,
}

impl View for Session {
    type V = SessionView;

    open(crate) spec fn view(&self) -> SessionView {
        SessionView { state: self.state@, diagnostics: codes(self.diagnostics@) }
    }
}

/// How an operation ended.
#[derive(Debug, PartialEq, Eq)]
pub enum Outcome {
    /// A service was opened or created, and its configuration fetched.
    Opened(WindowsService),
    /// The status of the service was read.
    Status(ServiceStatus),
    /// The configuration of the service was fetched.
    Fetched(ServiceConfig),
    /// The operation was done; it has nothing to give.
    Completed,
    /// The operation failed.
    Failed(ServiceError),
}

/// What an `Outcome` holds.
pub enum OutcomeView {
    Opened(WindowsServiceView),
    Status(u32),
    Fetched(ServiceConfigView),
    Completed,
    Failed(u32),
}

impl View for Outcome {
    type V = OutcomeView;

    open spec fn view(&self) -> OutcomeView {
        match *self {
            Outcome::Opened(service) => OutcomeView::Opened(service@),
            Outcome::Status(status) => OutcomeView::Status(status.code()),
            Outcome::Fetched(config) => OutcomeView::Fetched(config@),
            Outcome::Completed => OutcomeView::Completed,
            Outcome::Failed(error) => OutcomeView::Failed(error.code()),
        }
    }
}

/// The end of an operation: how it ended, and the failures met on the way
/// that did not stop it, in the order in which they came.
#[derive(Debug, PartialEq, Eq)]
pub struct Completion {
    pub outcome: Outcome,
    pub diagnostics: Vec<ServiceError>,
}

/// What a `Completion` holds.
pub struct CompletionView {
    pub outcome: OutcomeView,
    pub diagnostics: Seq<u32>,
}

impl View for Completion {
    type V = CompletionView;

    open spec fn view(&self) -> CompletionView {
        CompletionView { outcome: self.outcome@, diagnostics: codes(self.diagnostics@) }
    }
}

/// What an operation asks for next: a call to the platform, whose answer the
/// session takes, or nothing more.
#[derive(Debug, PartialEq, Eq)]
pub enum Step {
    Call { session: Session, call: PlatformCall },
    Finished(Completion),
}

/// What a `Step` holds.
pub enum StepView {
    Call { session: SessionView, call: PlatformCallView },
    Finished(CompletionView),
}

impl View for Step {
    type V = StepView;

    open spec fn view(&self) -> StepView {
        match *self {
            Step::Call { session, call } => StepView::Call { session: session@, call: call@ },
            Step::Finished(completion) => StepView::Finished(completion@),
        }
    }
}

impl SessionView {
    /// The step that makes `call` and waits for its answer in `state`.
    pub open spec fn call(self, state: StateView, call: PlatformCallView) -> StepView {
        StepView::Call { session: SessionView { state, diagnostics: self.diagnostics }, call }
    }

    /// The step that ends the session with `outcome`.
    pub open spec fn finish(self, outcome: OutcomeView) -> StepView {
        StepView::Finished(CompletionView { outcome, diagnostics: self.diagnostics })
    }

    /// The session with the failure of `reply` added to its diagnostics, where
    /// the reply is a failure to do what had nothing to give.
    pub open spec fn noting(self, reply: PlatformReplyView) -> SessionView {
        match reply {
            PlatformReplyView::Done => self,
            _ => SessionView {
                state: self.state,
                diagnostics: self.diagnostics.push(reply.failure()),
            },
        }
    }

    /// What follows from the answer to the call that the session waits for.
    ///
    /// A failure ends the operation with the error that the platform
    /// reported, once every handle that the session had acquired is closed:
    /// the service first, the manager after it. An answer that does not bring
    /// what the call was made for is a failure too. A failure to close a
    /// handle stops nothing; it is kept among the diagnostics. A request to
    /// start a service that is already running counts as done, with that
    /// error among the diagnostics.
    pub open spec fn next(self, reply: PlatformReplyView) -> StepView {
        match self.state {
            StateView::OpeningManager { name, request } => match reply {
                PlatformReplyView::Handle(manager) => self.call(
                    StateView::AcquiringService { name, manager },
                    service_call(request, manager),
                ),
                _ => self.finish(OutcomeView::Failed(reply.failure())),
            },
            StateView::AcquiringService { name, manager } => match reply {
                PlatformReplyView::Handle(service) => self.call(
                    StateView::FetchingConfig {
                        name,
                        manager,
                        service,
                        fetch: ConfigFetch::begin(),
                    },
                    PlatformCallView::QueryConfig { service, capacity: INITIAL_CONFIG_CAPACITY },
                ),
                _ => self.call(
                    StateView::Releasing { then: None, error: Some(reply.failure()) },
                    PlatformCallView::CloseHandle { handle: manager },
                ),
            },
            StateView::FetchingConfig { name, manager, service, fetch } => match fetch.next(
                reply,
            ) {
                FetchStepView::Parsed(config) => self.finish(
                    OutcomeView::Opened(WindowsServiceView { manager, service, name, config }),
                ),
                FetchStepView::Retry(again) => self.call(
                    StateView::FetchingConfig { name, manager, service, fetch: again },
                    PlatformCallView::QueryConfig { service, capacity: again.capacity },
                ),
                FetchStepView::Failed(error) => self.call(
                    StateView::Releasing { then: Some(manager), error: Some(error) },
                    PlatformCallView::CloseHandle { handle: service },
                ),
            },
            StateView::Releasing { then, error } => match then {
                Some(handle) => self.noting(reply).call(
                    StateView::Releasing { then: None, error },
                    PlatformCallView::CloseHandle { handle },
                ),
                None => self.noting(reply).finish(
                    match error {
                        Some(error) => OutcomeView::Failed(error),
                        None => OutcomeView::Completed,
                    },
                ),
            },
            StateView::QueryingStatus => match reply {
                PlatformReplyView::Status(status) => self.finish(OutcomeView::Status(status)),
                _ => self.finish(OutcomeView::Failed(reply.failure())),
            },
            StateView::Refetching { service, fetch } => match fetch.next(reply) {
                FetchStepView::Parsed(config) => self.finish(OutcomeView::Fetched(config)),
                FetchStepView::Retry(again) => self.call(
                    StateView::Refetching { service, fetch: again },
                    PlatformCallView::QueryConfig { service, capacity: again.capacity },
                ),
                FetchStepView::Failed(error) => self.finish(OutcomeView::Failed(error)),
            },
            StateView::ChangingConfig => match reply {
                PlatformReplyView::Done => self.finish(OutcomeView::Completed),
                _ => self.finish(OutcomeView::Failed(reply.failure())),
            },
            StateView::Deleting => match reply {
                PlatformReplyView::Done => self.finish(OutcomeView::Completed),
                _ => self.finish(OutcomeView::Failed(reply.failure())),
            },
            StateView::Starting => match reply {
                PlatformReplyView::Done => self.finish(OutcomeView::Completed),
                _ => if reply.failure() == ERROR_SERVICE_ALREADY_RUNNING {
                    self.noting(reply).finish(OutcomeView::Completed)
                } else {
                    self.finish(OutcomeView::Failed(reply.failure()))
                },
            },
        }
    }
}

/// The call that asks the service control manager, open as `manager`, for
/// what `request` says.
pub open spec fn service_call(request: ServiceRequestView, manager: isize) -> PlatformCallView {
    match request {
        ServiceRequestView::Open { name, access } => PlatformCallView::OpenService {
            manager,
            name,
            access,
        },
        ServiceRequestView::Create(registration) => PlatformCallView::CreateService {
            manager,
            registration,
        },
    }
}

/// The step with which an operation starts: the first call, and no
/// diagnostics yet.
pub open spec fn first_call(state: StateView, call: PlatformCallView) -> StepView {
    StepView::Call { session: SessionView { state, diagnostics: Seq::empty() }, call }
}

/// The step of an operation that is refused before any call is made.
pub open spec fn refused(error: u32) -> StepView {
    StepView::Finished(
        CompletionView { outcome: OutcomeView::Failed(error), diagnostics: Seq::empty() },
    )
}

pub(crate) fn refuse(error: ServiceError) -> (step: Step)
    ensures
        step@ == refused(error.code()),
{
    let diagnostics: Vec<ServiceError> = Vec::new();
    proof {
        assert(codes(diagnostics@) =~= Seq::<u32>::empty());
    }
    Step::Finished(Completion { outcome: Outcome::Failed(error), diagnostics })
}

pub(crate) fn begin(state: State, call: PlatformCall) -> (step: Step)
    ensures
        step@ == first_call(state@, call@),
{
    let diagnostics: Vec<ServiceError> = Vec::new();
    proof {
        assert(codes(diagnostics@) =~= Seq::<u32>::empty());
    }
    Step::Call { session: Session { state, diagnostics }, call }
}

impl Session {
    /// What follows from the answer to the call that the session waits for.
    pub fn resume(self, reply: PlatformReply) -> (step: Step)
        ensures
            step@ == self@.next(reply@),
    {
        let Session { state, diagnostics } = self;
        let mut diagnostics = diagnostics;
        match state {
            State::OpeningManager { name, request } => match ResourceHandle::acquire(&reply) {
                Ok(manager) => {
                    let call = match request {
                        ServiceRequest::Open { name, access } => PlatformCall::OpenService {
                            manager: manager.raw(),
                            name,
                            access,
                        },
                        ServiceRequest::Create(registration) => PlatformCall::CreateService {
                            manager: manager.raw(),
                            registration,
                        },
                    };
                    Step::Call {
                        session: Session {
                            state: State::AcquiringService { name, manager },
                            diagnostics,
                        },
                        call,
                    }
                },
                Err(error) => Step::Finished(
                    Completion { outcome: Outcome::Failed(error), diagnostics },
                ),
            },
            State::AcquiringService { name, manager } => match ResourceHandle::acquire(&reply) {
                Ok(service) => {
                    let fetch = ConfigFetch::begin();
                    let call = fetch.query(&service);
                    Step::Call {
                        session: Session {
                            state: State::FetchingConfig { name, manager, service, fetch },
                            diagnostics,
                        },
                        call,
                    }
                },
                Err(error) => {
                    let call = manager.release();
                    Step::Call {
                        session: Session {
                            state: State::Releasing { then: None, error: Some(error) },
                            diagnostics,
                        },
                        call,
                    }
                },
            },
            State::FetchingConfig { name, manager, service, fetch } => match fetch.resume(
                &reply,
            ) {
                FetchStep::Parsed(config) => Step::Finished(
                    Completion {
                        outcome: Outcome::Opened(
                            WindowsService {
                                sc_manager_handle: manager,
                                service_handle: service,
                                name,
                                config,
                            },
                        ),
                        diagnostics,
                    },
                ),
                FetchStep::Retry(again) => {
                    let call = again.query(&service);
                    Step::Call {
                        session: Session {
                            state: State::FetchingConfig { name, manager, service, fetch: again },
                            diagnostics,
                        },
                        call,
                    }
                },
                FetchStep::Failed(error) => {
                    let call = service.release();
                    Step::Call {
                        session: Session {
                            state: State::Releasing { then: Some(manager), error: Some(error) },
                            diagnostics,
                        },
                        call,
                    }
                },
            },
            State::Releasing { then, error } => {
                note(&mut diagnostics, &reply);
                match then {
                    Some(handle) => {
                        let call = handle.release();
                        Step::Call {
                            session: Session {
                                state: State::Releasing { then: None, error },
                                diagnostics,
                            },
                            call,
                        }
                    },
                    None => Step::Finished(
                        Completion {
                            outcome: match error {
                                Some(error) => Outcome::Failed(error),
                                None => Outcome::Completed,
                            },
                            diagnostics,
                        },
                    ),
                }
            },
            State::QueryingStatus => match reply {
                PlatformReply::Status(status) => Step::Finished(
                    Completion { outcome: Outcome::Status(status), diagnostics },
                ),
                _ => Step::Finished(
                    Completion { outcome: Outcome::Failed(reply.failure()), diagnostics },
                ),
            },
            State::Refetching { service, fetch } => match fetch.resume(&reply) {
                FetchStep::Parsed(config) => Step::Finished(
                    Completion { outcome: Outcome::Fetched(config), diagnostics },
                ),
                FetchStep::Retry(again) => Step::Call {
                    session: Session {
                        state: State::Refetching { service, fetch: again },
                        diagnostics,
                    },
                    call: PlatformCall::QueryConfig { service, capacity: again.capacity },
                },
                FetchStep::Failed(error) => Step::Finished(
                    Completion { outcome: Outcome::Failed(error), diagnostics },
                ),
            },
            State::ChangingConfig => match reply {
                PlatformReply::Done => Step::Finished(
                    Completion { outcome: Outcome::Completed, diagnostics },
                ),
                _ => Step::Finished(
                    Completion { outcome: Outcome::Failed(reply.failure()), diagnostics },
                ),
            },
            State::Deleting => match reply {
                PlatformReply::Done => Step::Finished(
                    Completion { outcome: Outcome::Completed, diagnostics },
                ),
                _ => Step::Finished(
                    Completion { outcome: Outcome::Failed(reply.failure()), diagnostics },
                ),
            },
            State::Starting => match reply {
                PlatformReply::Done => Step::Finished(
                    Completion { outcome: Outcome::Completed, diagnostics },
                ),
                _ => {
                    let error = reply.failure();
                    if error.code() == ERROR_SERVICE_ALREADY_RUNNING {
                        note(&mut diagnostics, &reply);
                        Step::Finished(Completion { outcome: Outcome::Completed, diagnostics })
                    } else {
                        Step::Finished(Completion { outcome: Outcome::Failed(error), diagnostics })
                    }
                },
            },
        }
    }
}

/// Adds the failure of `reply` to the diagnostics, where the reply is a
/// failure to do what had nothing to give.
fn note(diagnostics: &mut Vec<ServiceError>, reply: &PlatformReply)
    ensures
        codes(final(diagnostics)@) == (match reply@ {
            PlatformReplyView::Done => codes(old(diagnostics)@),
            _ => codes(old(diagnostics)@).push(reply@.failure()),
        }),
{
    match reply {
        PlatformReply::Done => {},
        _ => {
            let error = reply.failure();
            diagnostics.push(error);
            proof {
                assert(codes(diagnostics@) =~= codes(old(diagnostics)@).push(error.code()));
            }
        },
    }
}

/// The handles that a session owns while it waits, in the order in which
/// they are to be closed. The handle of a call to close that is out is owned
/// no more; the handles of an open service belong to the service.
pub open spec fn held(state: StateView) -> Seq<isize> {
    match state {
        StateView::AcquiringService { name, manager } => seq![manager],
        StateView::FetchingConfig { name, manager, service, fetch } => seq![service, manager],
        StateView::Releasing { then: Some(handle), error } => seq![handle],
        _ => Seq::empty(),
    }
}

/// The handles that are owned after a step: those of the session that goes
/// on, or those of the service that was opened.
pub open spec fn held_after(step: StepView) -> Seq<isize> {
    match step {
        StepView::Call { session, call } => held(session.state),
        StepView::Finished(completion) => match completion.outcome {
            OutcomeView::Opened(service) => seq![service.service, service.manager],
            _ => Seq::empty(),
        },
    }
}

/// The handle that a step closes, where it closes one.
pub open spec fn closed_by(step: StepView) -> Seq<isize> {
    match step {
        StepView::Call { session, call: PlatformCallView::CloseHandle { handle } } => seq![handle],
        _ => Seq::empty(),
    }
}

/// The handle that an answer brings to a session that waits for one.
pub open spec fn acquired(state: StateView, reply: PlatformReplyView) -> Seq<isize> {
    match (state, reply) {
        (StateView::OpeningManager { name, request }, PlatformReplyView::Handle(handle)) => seq![
            handle,
        ],
        (StateView::AcquiringService { name, manager }, PlatformReplyView::Handle(handle)) => seq![
            handle,
        ],
        _ => Seq::empty(),
    }
}

/// How many calls a session can still ask for once the call that it waits
/// for is answered.
pub open spec fn calls_left(state: StateView) -> nat {
    match state {
        StateView::OpeningManager { name, request } => 5,
        StateView::AcquiringService { name, manager } => 4,
        StateView::FetchingConfig { name, manager, service, fetch } => if fetch.retried {
            2
        } else {
            3
        },
        StateView::Refetching { service, fetch } => if fetch.retried {
            0
        } else {
            1
        },
        StateView::Releasing { then: Some(handle), error } => 1,
        _ => 0,
    }
}

/// No handle is lost and none is closed twice. After each step, the handle
/// that the step closes and the handles still owned are, in order, the handle
/// that the answer brought and the handles owned before: a handle stays owned
/// from the answer that brings it until the one call that closes it, and of
/// two handles the service's is closed first. So an operation that ends in
/// failure, or with nothing to give, owns no handle at its end.
pub proof fn lemma_handles_accounted(session: SessionView, reply: PlatformReplyView)
    ensures
        closed_by(session.next(reply)) + held_after(session.next(reply)) == acquired(
            session.state,
            reply,
        ) + held(session.state),
        session.next(reply) matches StepView::Finished(completion) && !(completion.outcome
            is Opened) ==> held(session.state).len() == 0 && acquired(session.state, reply).len()
            == 0,
{
    let step = session.next(reply);
    assert(closed_by(step) + held_after(step) =~= acquired(session.state, reply) + held(
        session.state,
    ));
}

/// Giving a service up closes its two handles, each once: first the handle
/// to the service, then the handle to the service control manager, whatever
/// the platform answers to the first; and then the session is over.
pub proof fn lemma_close_releases_both(
    service: WindowsServiceView,
    first: PlatformReplyView,
    second: PlatformReplyView,
)
    ensures
        ({
            let start = first_call(
                StateView::Releasing { then: Some(service.manager), error: None },
                PlatformCallView::CloseHandle { handle: service.service },
            );
            &&& start matches StepView::Call { session, call }
            &&& call == (PlatformCallView::CloseHandle { handle: service.service })
            &&& session.next(first) matches StepView::Call { session: last, call: after }
            &&& after == (PlatformCallView::CloseHandle { handle: service.manager })
            &&& last.next(second) matches StepView::Finished(completion)
            &&& completion.outcome == OutcomeView::Completed
        }),
{
}

/// Every operation ends: each step leaves fewer calls to ask for, five at
/// most from the first answer on, and a fetch of the configuration asks at
/// most twice.
pub proof fn lemma_session_ends(session: SessionView, reply: PlatformReplyView)
    ensures
        calls_left(session.state) <= 5,
        session.next(reply) matches StepView::Call { session: after, call } ==> calls_left(
            after.state,
        ) < calls_left(session.state),
{
}

/// Creating a service under a name that is taken fails as a duplicate
/// service name, whether the platform reports the service name as in use or
/// the display name: the session closes the handle to the service control
/// manager and then ends in that failure, with no service opened.
pub proof fn lemma_create_under_name_in_use(
    session: SessionView,
    error: u32,
    needed: u32,
    closed: PlatformReplyView,
)
    requires
        session.state is AcquiringService,
        error == ERROR_SERVICE_EXISTS || error == ERROR_DUPLICATE_SERVICE_NAME,
    ensures
        ({
            &&& session.next(PlatformReplyView::Failed { error, needed }) matches StepView::Call {
                session: closing,
                call,
            }
            &&& call == (PlatformCallView::CloseHandle {
                handle: session.state->AcquiringService_manager,
            })
            &&& closing.next(closed) matches StepView::Finished(completion)
            &&& completion.outcome == OutcomeView::Failed(error)
            &&& error_kind(error) == ServiceErrorKind::DuplicateServiceName
        }),
{
}

/// A request to start a service that runs already is done, not failed, and
/// says so among its diagnostics; any other failure to start is a failure.
pub proof fn lemma_start_when_running(session: SessionView, error: u32, needed: u32)
    requires
        session.state == StateView::Starting,
    ensures
        ({
            let step = session.next(PlatformReplyView::Failed { error, needed });
            if error == ERROR_SERVICE_ALREADY_RUNNING {
                step == StepView::Finished(
                    CompletionView {
                        outcome: OutcomeView::Completed,
                        diagnostics: session.diagnostics.push(ERROR_SERVICE_ALREADY_RUNNING),
                    },
                )
            } else {
                step == StepView::Finished(
                    CompletionView {
                        outcome: OutcomeView::Failed(error),
                        diagnostics: session.diagnostics,
                    },
                )
            }
        }),
{
}

} // verus!
