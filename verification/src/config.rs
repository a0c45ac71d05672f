//! The configuration record of a service: what it holds, how it is written
//! for the platform and read back, and how it is fetched from a platform
//! that does not say in advance how large the record is.

use crate::dword::{
    ServiceError, ServiceErrorControl, ServiceStartType, ServiceType, ERROR_INSUFFICIENT_BUFFER,
    ERROR_INVALID_PARAMETER,
};
use crate::handle::ResourceHandle;
use crate::platform::{
    PlatformCall, PlatformCallView, PlatformReply, PlatformReplyView, RawServiceConfig,
    RawServiceConfigView,
};
use crate::wide::{
    decode_utf16, decode_wide, decode_wide_list, encode_wide, encode_wide_list, has_nul,
    lemma_decoded_text_has_no_nul, lemma_list_texts, lemma_list_texts_listable,
    lemma_wide_round_trip, list_texts, listable, optional_text, until_nul, wide, wide_list,
};
use vstd::prelude::*;

verus! {

/// The size in bytes of the buffer that the first query for a configuration
/// offers.
pub const INITIAL_CONFIG_CAPACITY: u32 = 370;

/// The configuration of a service: a snapshot, held by the caller, that can be
/// changed and written back as a whole.
#[derive(Clone, Debug, PartialEq, Eq)]
pub struct ServiceConfig {
    pub service_type: ServiceType,
    pub start_type: ServiceStartType,
    pub error_control: ServiceErrorControl,
    /// The path of the binary file, with its arguments.
    pub binary_path: String,
    /// The load order group of the service; empty where it has none.
    pub load_order_group: String,
    /// The names of what must run before the service starts, in order.
    pub dependencies: Vec<String>,
    /// The name of the account that the service runs under.
    pub service_start_name: String,
    /// The name that user interfaces show for the service.
    pub display_name: String,
}

/// What a `ServiceConfig` holds.
pub struct ServiceConfigView {
    pub service_type: u32,
    pub start_type: u32,
    pub error_control: u32,
    pub binary_path: Seq<char>,
    pub load_order_group: Seq<char>,
    pub dependencies: Seq<Seq<char>>,
    pub service_start_name: Seq<char>,
    pub display_name: Seq<char>,
}

impl View for ServiceConfig {
    type V = ServiceConfigView;

    open spec fn view(&self) -> ServiceConfigView {
        ServiceConfigView {
            service_type: self.service_type.code(),
            start_type: self.start_type.code(),
            error_control: self.error_control.code(),
            binary_path: self.binary_path@,
            load_order_group: self.load_order_group@,
            dependencies: self.dependencies.deep_view(),
            service_start_name: self.service_start_name@,
            display_name: self.display_name@,
        }
    }
}

/// Whether a configuration can be written for the platform: no text of it
/// holds the character zero, and no dependency has an empty name.
pub open spec fn encodable(config: ServiceConfigView) -> bool {
    &&& !has_nul(config.binary_path)
    &&& !has_nul(config.load_order_group)
    &&& listable(config.dependencies)
    &&& !has_nul(config.service_start_name)
    &&& !has_nul(config.display_name)
}

/// A configuration as the platform takes it: every field of it, each text as
/// a string of the platform, the dependencies as a list of the platform.
pub open spec fn encode_config(config: ServiceConfigView) -> RawServiceConfigView {
    RawServiceConfigView {
        service_type: config.service_type,
        start_type: config.start_type,
        error_control: config.error_control,
        binary_path: wide(config.binary_path),
        load_order_group: wide(config.load_order_group),
        dependencies: wide_list(config.dependencies),
        service_start_name: wide(config.service_start_name),
        display_name: wide(config.display_name),
    }
}

/// The configuration that a record of the platform stands for.
pub open spec fn parse_config(raw: RawServiceConfigView) -> ServiceConfigView {
    ServiceConfigView {
        service_type: raw.service_type,
        start_type: raw.start_type,
        error_control: raw.error_control,
        binary_path: decode_utf16(until_nul(raw.binary_path)),
        load_order_group: decode_utf16(until_nul(raw.load_order_group)),
        dependencies: list_texts(raw.dependencies),
        service_start_name: decode_utf16(until_nul(raw.service_start_name)),
        display_name: decode_utf16(until_nul(raw.display_name)),
    }
}

impl ServiceConfig {
    /// The configuration that a record of the platform stands for. Whatever
    /// the record holds, the configuration can be written for the platform
    /// again.
    pub fn parse(raw: &RawServiceConfig) -> (config: ServiceConfig)
        ensures
            config@ == parse_config(raw@),
            encodable(config@),
    {
        proof {
            lemma_fetched_can_be_replaced(raw@);
        }
        ServiceConfig {
            service_type: raw.service_type,
            start_type: raw.start_type,
            error_control: raw.error_control,
            binary_path: decode_wide(&raw.binary_path),
            load_order_group: decode_wide(&raw.load_order_group),
            dependencies: decode_wide_list(&raw.dependencies),
            service_start_name: decode_wide(&raw.service_start_name),
            display_name: decode_wide(&raw.display_name),
        }
    }

    /// This configuration as the platform takes it, or nothing where it cannot
    /// be written so.
    pub fn encode(&self) -> (r: Option<RawServiceConfig>)
        ensures
            match r {
                Some(raw) => encodable(self@) && raw@ == encode_config(self@),
                None => !encodable(self@),
            },
    {
        let mut names: Vec<&str> = Vec::new();
        let mut k: usize = 0;
        while k < self.dependencies.len()
            invariant
                k <= self.dependencies.len(),
                names.deep_view() == self.dependencies.deep_view().take(k as int),
            decreases self.dependencies.len() - k,
        {
            let ghost before = names.deep_view();
            names.push(self.dependencies[k].as_str());
            proof {
                assert(names.deep_view() =~= before.push(self.dependencies[k as int]@));
                assert(self.dependencies.deep_view().take(k + 1) =~= before.push(
                    self.dependencies[k as int]@,
                ));
            }
            k = k + 1;
        }
        proof {
            assert(self.dependencies.deep_view().take(k as int) =~= self.dependencies.deep_view());
        }
        let binary_path = match encode_wide(self.binary_path.as_str()) {
            Some(units) => units,
            None => { return None; },
        };
        let load_order_group = match encode_wide(self.load_order_group.as_str()) {
            Some(units) => units,
            None => { return None; },
        };
        let dependencies = match encode_wide_list(&names) {
            Some(units) => units,
            None => { return None; },
        };
        let service_start_name = match encode_wide(self.service_start_name.as_str()) {
            Some(units) => units,
            None => { return None; },
        };
        let display_name = match encode_wide(self.display_name.as_str()) {
            Some(units) => units,
            None => { return None; },
        };
        Some(
            RawServiceConfig {
                service_type: self.service_type,
                start_type: self.start_type,
                error_control: self.error_control,
                binary_path,
                load_order_group,
                dependencies,
                service_start_name,
                display_name,
            },
        )
    }

    /// The call that replaces the configuration of a service by this one, every
    /// field of it, and sets a new password where one is given. It is an
    /// invalid parameter where the configuration cannot be written for the
    /// platform or the password holds the character zero.
    pub fn replace(&self, service: &ResourceHandle, password: Option<&str>) -> (r: Result<
        PlatformCall,
        ServiceError,
    >)
        ensures
            match r {
                Ok(call) => replaceable(self@, optional_text(password)) && call@ == replace_call(
                    service@,
                    self@,
                    optional_text(password),
                ),
                Err(error) => !replaceable(self@, optional_text(password)) && error.code()
                    == ERROR_INVALID_PARAMETER,
            },
    {
        let config = match self.encode() {
            Some(raw) => raw,
            None => { return Err(ServiceError::ERROR_INVALID_PARAMETER()); },
        };
        let password = match password {
            Some(text) => match encode_wide(text) {
                Some(units) => Some(units),
                None => { return Err(ServiceError::ERROR_INVALID_PARAMETER()); },
            },
            None => None,
        };
        Ok(PlatformCall::ChangeConfig { service: service.raw(), config, password })
    }
}

/// Whether a configuration, with a new password or without, can be written
/// for the platform.
pub open spec fn replaceable(config: ServiceConfigView, password: Option<Seq<char>>) -> bool {
    encodable(config) && match password {
        Some(text) => !has_nul(text),
        None => true,
    }
}

/// The call that replaces the configuration of `service` by `config`.
pub open spec fn replace_call(
    service: isize,
    config: ServiceConfigView,
    password: Option<Seq<char>>,
) -> PlatformCallView {
    PlatformCallView::ChangeConfig {
        service,
        config: encode_config(config),
        password: match password {
            Some(text) => Some(wide(text)),
            None => None,
        },
    }
}

/// A configuration that was written for the platform reads back as it was,
/// field by field.
pub proof fn lemma_config_round_trip(config: ServiceConfigView)
    requires
        encodable(config),
    ensures
        parse_config(encode_config(config)) == config,
{
    lemma_wide_round_trip(config.binary_path);
    lemma_wide_round_trip(config.load_order_group);
    lemma_list_texts(config.dependencies);
    lemma_wide_round_trip(config.service_start_name);
    lemma_wide_round_trip(config.display_name);
}

/// A configuration as it was fetched can always be written back: whatever
/// record the platform hands out, no text read from it holds the character
/// zero and no dependency read from it has an empty name. So an update of
/// the configuration as it was fetched, without a new password, is not
/// refused but reaches the platform.
pub proof fn lemma_fetched_can_be_replaced(raw: RawServiceConfigView)
    ensures
        encodable(parse_config(raw)),
        replaceable(parse_config(raw), None),
{
    lemma_decoded_text_has_no_nul(raw.binary_path);
    lemma_decoded_text_has_no_nul(raw.load_order_group);
    lemma_list_texts_listable(raw.dependencies);
    lemma_decoded_text_has_no_nul(raw.service_start_name);
    lemma_decoded_text_has_no_nul(raw.display_name);
}

/// What is replaced and then fetched is what was submitted. If the platform
/// answers a query with the record that a call to replace the configuration
/// handed it, within the buffer of the query, the fetch gives the
/// configuration that was submitted, every field of it. The password is
/// submitted beside the record and is no part of what a fetch gives.
pub proof fn lemma_replace_then_fetch(
    service: isize,
    config: ServiceConfigView,
    password: Option<Seq<char>>,
    fetch: ConfigFetch,
    needed: u32,
)
    requires
        replaceable(config, password),
        needed <= fetch.capacity,
    ensures
        replace_call(service, config, password) matches PlatformCallView::ChangeConfig {
            service: target,
            config: stored,
            password: sent,
        } && target == service && fetch.next(PlatformReplyView::Config { needed, record: stored })
            == FetchStepView::Parsed(config),
{
    lemma_config_round_trip(config);
}

/// A fetch of a configuration that is under way: the size of the buffer of
/// the query that is out, and whether that query is the second one.
#[derive(Clone, Copy, Debug, PartialEq, Eq, Structural)]
pub struct ConfigFetch {
    pub capacity: u32,
    pub retried: bool,
}

/// What follows from the answer to a query for the configuration.
#[derive(Clone, Debug, PartialEq, Eq)]
pub enum FetchStep {
    /// The platform wrote the record within the buffer: the fetch is over.
    Parsed(ServiceConfig),
    /// The buffer was too small: one more query is due, as `ConfigFetch` says.
    Retry(ConfigFetch),
    /// The fetch is over and has failed.
    Failed(ServiceError),
}

/// What a `FetchStep` holds.
pub enum FetchStepView {
    Parsed(ServiceConfigView),
    Retry(ConfigFetch),
    Failed(u32),
}

impl View for FetchStep {
    type V = FetchStepView;

    open spec fn view(&self) -> FetchStepView {
        match *self {
            FetchStep::Parsed(config) => FetchStepView::Parsed(config@),
            FetchStep::Retry(fetch) => FetchStepView::Retry(fetch),
            FetchStep::Failed(error) => FetchStepView::Failed(error.code()),
        }
    }
}

impl ConfigFetch {
    /// The first query of a fetch, with the buffer of the initial size.
    pub open spec fn spec_begin() -> ConfigFetch {
        ConfigFetch { capacity: INITIAL_CONFIG_CAPACITY, retried: false }
    }

    /// The first query of a fetch, with the buffer of the initial size.
    #[verifier::when_used_as_spec(spec_begin)]
    pub fn begin() -> (fetch: ConfigFetch)
        ensures
            fetch == ConfigFetch::begin(),
    {
        ConfigFetch { capacity: INITIAL_CONFIG_CAPACITY, retried: false }
    }

    /// The call of the query that is out.
    pub fn query(&self, service: &ResourceHandle) -> (call: PlatformCall)
        ensures
            call@ == (PlatformCallView::QueryConfig { service: service@, capacity: self.capacity }),
    {
        PlatformCall::QueryConfig { service: service.raw(), capacity: self.capacity }
    }

    /// What follows from the answer to the query that is out. A record is
    /// read only where the platform confirmed that it took no more than the
    /// buffer had. Where the buffer was too small, the platform says what it
    /// needs, and the first query is followed by a second one of exactly that
    /// size; the second query is followed by none. Any other failure ends the
    /// fetch at once.
    pub open spec fn next(self, reply: PlatformReplyView) -> FetchStepView {
        match reply {
            PlatformReplyView::Config { needed, record } => {
                if needed <= self.capacity {
                    FetchStepView::Parsed(parse_config(record))
                } else if !self.retried {
                    FetchStepView::Retry(ConfigFetch { capacity: needed, retried: true })
                } else {
                    FetchStepView::Failed(ERROR_INSUFFICIENT_BUFFER)
                }
            },
            PlatformReplyView::Failed { error, needed } => {
                if error == ERROR_INSUFFICIENT_BUFFER && !self.retried {
                    FetchStepView::Retry(ConfigFetch { capacity: needed, retried: true })
                } else {
                    FetchStepView::Failed(error)
                }
            },
            _ => FetchStepView::Failed(ERROR_INVALID_PARAMETER),
        }
    }

    /// What follows from the answer to the query that is out.
    pub fn resume(self, reply: &PlatformReply) -> (step: FetchStep)
        ensures
            step@ == self.next(reply@),
    {
        match reply {
            PlatformReply::Config { needed, record } => {
                if *needed <= self.capacity {
                    FetchStep::Parsed(ServiceConfig::parse(record))
                } else if !self.retried {
                    FetchStep::Retry(ConfigFetch { capacity: *needed, retried: true })
                } else {
                    FetchStep::Failed(ServiceError::from(ERROR_INSUFFICIENT_BUFFER))
                }
            },
            PlatformReply::Failed { error, needed } => {
                if error.code() == ERROR_INSUFFICIENT_BUFFER && !self.retried {
                    FetchStep::Retry(ConfigFetch { capacity: *needed, retried: true })
                } else {
                    FetchStep::Failed(*error)
                }
            },
            _ => FetchStep::Failed(ServiceError::ERROR_INVALID_PARAMETER()),
        }
    }
}

/// A fetch makes one query with the buffer of the initial size. Where that
/// buffer is too small, it makes exactly one more, with the size that the
/// platform asked for, and what that one brings is what a first query with
/// a buffer large enough would have brought. The second query is the last:
/// whatever it brings, no third follows, and if it fails, the fetch fails
/// with its error.
pub proof fn lemma_fetch_retries_once(
    needed: u32,
    taken: u32,
    record: RawServiceConfigView,
    error: u32,
    again: u32,
)
    ensures
        ConfigFetch::begin() == (ConfigFetch { capacity: INITIAL_CONFIG_CAPACITY, retried: false }),
        ConfigFetch::begin().next(
            PlatformReplyView::Failed { error: ERROR_INSUFFICIENT_BUFFER, needed },
        ) == FetchStepView::Retry(ConfigFetch { capacity: needed, retried: true }),
        taken <= needed ==> (ConfigFetch { capacity: needed, retried: true }).next(
            PlatformReplyView::Config { needed: taken, record },
        ) == FetchStepView::Parsed(parse_config(record)),
        taken <= needed ==> (ConfigFetch { capacity: needed, retried: true }).next(
            PlatformReplyView::Config { needed: taken, record },
        ) == (ConfigFetch { capacity: needed, retried: false }).next(
            PlatformReplyView::Config { needed: taken, record },
        ),
        (ConfigFetch { capacity: needed, retried: true }).next(
            PlatformReplyView::Failed { error, needed: again },
        ) == FetchStepView::Failed(error),
        forall|reply: PlatformReplyView|
            !(#[trigger] (ConfigFetch { capacity: needed, retried: true }).next(reply) is Retry),
{
}

} // verus!
