//! The record-reconciliation core: configuration, record and error types,
//! the events the transport reports, the actions the reconciler asks for,
//! and the cycle step function that ties them together.

use vstd::prelude::*;
use crate::wire::record_datas_of;

verus! {

/// The provider configuration, loaded once at startup.  Every field must be
/// non-empty for the configuration to be usable.
#[derive(Debug, Clone, PartialEq, Eq)]
pub struct GodaddyConfig {
    pub api_key: String,
    pub api_secret: String,
    pub base_path: String,
    pub record_name: String,
}

/// One A-record's value as known to this process: the dotted or
/// colon-separated address text currently published.
#[derive(Debug, Clone, PartialEq, Eq)]
pub struct DnsRecord {
    pub data: String,
}

/// A startup configuration failure.  It is fatal: the caller must not start
/// the reconciliation loop without a complete configuration.
#[derive(Debug, Clone, PartialEq, Eq)]
pub enum GodaddyConfigError {
    MissingEnvironmentVariables,
}

/// A value counts as given when it is present and non-empty.
pub open spec fn given(v: Option<String>) -> bool {
    v matches Some(s) && s@.len() > 0
}

impl GodaddyConfig {
    /// All four fields are non-empty.
    pub open spec fn wf(&self) -> bool {
        &&& self.api_key@.len() > 0
        &&& self.api_secret@.len() > 0
        &&& self.base_path@.len() > 0
        &&& self.record_name@.len() > 0
    }

    /// Builds the configuration from the four environment values, handed in
    /// by the caller.  Succeeds exactly when every value is present and
    /// non-empty; a missing or empty value is a fatal configuration error.
    pub fn load(
        api_key: Option<String>,
        api_secret: Option<String>,
        base_path: Option<String>,
        record_name: Option<String>,
    ) -> (r: Result<Self, GodaddyConfigError>)
        ensures
            r is Ok <==> given(api_key) && given(api_secret) && given(base_path)
                && given(record_name),
            r matches Ok(c) ==> {
                &&& Some(c.api_key) == api_key
                &&& Some(c.api_secret) == api_secret
                &&& Some(c.base_path) == base_path
                &&& Some(c.record_name) == record_name
                &&& c.wf()
            },
            r matches Err(e) ==> e is MissingEnvironmentVariables,
    {
        match (api_key, api_secret, base_path, record_name) {
            (Some(k), Some(s), Some(p), Some(n)) => {
                if k.as_str().unicode_len() > 0 && s.as_str().unicode_len() > 0
                    && p.as_str().unicode_len() > 0 && n.as_str().unicode_len() > 0 {
                    Ok(GodaddyConfig {
                        api_key: k,
                        api_secret: s,
                        base_path: p,
                        record_name: n,
                    })
                } else {
                    Err(GodaddyConfigError::MissingEnvironmentVariables)
                }
            },
            _ => Err(GodaddyConfigError::MissingEnvironmentVariables),
        }
    }
}

impl GodaddyConfigError {
    /// The operator-facing description of the failure.
    pub fn message(&self) -> (m: String)
        ensures
            m@ == "Environmental variables are not set: API_KEY, API_SECRET, BASE_PATH, RECORD_NAME"@,
    {
        String::from_str(
            "Environmental variables are not set: API_KEY, API_SECRET, BASE_PATH, RECORD_NAME",
        )
    }
}

/// A failure of one reconciliation cycle.  Every kind is recoverable at the
/// cycle boundary: the caller logs it and waits for the next tick.
#[derive(Debug, Clone, PartialEq, Eq)]
pub enum DnsRecordManagerError {
    /// The public IP could not be determined.
    UnableToGetPublicIp,
    /// The transport could not deliver a request; carries its description.
    RequestFail(String),
    /// A read response's payload did not have the expected shape; carries
    /// the parser's description.
    FailToParseResponse(String),
    /// The provider rejected an update; carries the response body.
    UpdateRecordError(String),
    /// An internal invariant did not hold; indicates a logic bug.
    Unexpected(String),
}

impl DnsRecordManagerError {
    /// The operator-facing description of the error.
    pub fn message(&self) -> (m: String)
        ensures
            match *self {
                DnsRecordManagerError::UnableToGetPublicIp => m@ == "Unable to get public IP"@,
                DnsRecordManagerError::RequestFail(_) => m@ == "Unable to send request."@,
                DnsRecordManagerError::FailToParseResponse(s) =>
                    m@ == "Fail to parse reponse: "@ + s@,
                DnsRecordManagerError::UpdateRecordError(s) =>
                    m@ == "Error response when update record: "@ + s@,
                DnsRecordManagerError::Unexpected(s) => m@ == "Unexpected error: "@ + s@,
            },
    {
        match self {
            DnsRecordManagerError::UnableToGetPublicIp => {
                String::from_str("Unable to get public IP")
            },
            DnsRecordManagerError::RequestFail(_) => String::from_str("Unable to send request."),
            DnsRecordManagerError::FailToParseResponse(s) => {
                let mut m = String::from_str("Fail to parse reponse: ");
                m.append(s.as_str());
                m
            },
            DnsRecordManagerError::UpdateRecordError(s) => {
                let mut m = String::from_str("Error response when update record: ");
                m.append(s.as_str());
                m
            },
            DnsRecordManagerError::Unexpected(s) => {
                let mut m = String::from_str("Unexpected error: ");
                m.append(s.as_str());
                m
            },
        }
    }
}

/// What the transport reports back from a read of the A-record.
#[derive(Debug, Clone, PartialEq, Eq)]
pub enum ReadEvent {
    /// The request could not be sent; carries the transport's description.
    SendFailed(String),
    /// The provider answered with a non-success status; carries the
    /// response body, or nothing when the body was not text.
    FailedStatus(Option<String>),
    /// The provider answered with a success status; carries the body.
    Succeeded(String),
}

/// What the transport reports back from a write of the A-record.
#[derive(Debug, Clone, PartialEq, Eq)]
pub enum WriteEvent {
    /// The request could not be sent; carries the transport's description.
    SendFailed(String),
    /// The provider answered with a non-success status; carries the
    /// response body.
    FailedStatus(String),
    /// The provider accepted the update.
    Succeeded,
}

/// How one reconciliation cycle ended.
#[derive(Debug, Clone, PartialEq, Eq)]
pub enum ReconciliationOutcome {
    /// The cached record already matches the public IP; nothing was written.
    NoChangeNeeded,
    /// The record was rewritten from `old_ip` to `new_ip`.
    Updated { old_ip: String, new_ip: String },
}

/// What the reconciler asks its caller to do next within one cycle.
#[derive(Debug, Clone, PartialEq, Eq)]
pub enum CycleAction {
    /// Read the A-record and report a `RecordFetched` event.
    FetchRecord,
    /// Resolve the public IP and report an `IpResolved` event.
    ResolveIp,
    /// Write `new_ip` to the A-record and report an `UpdateCompleted` event.
    UpdateRecord { new_ip: String },
    /// The cycle is complete.
    Finish(ReconciliationOutcome),
}

/// What the caller reports to the reconciler: the start of a cycle, or the
/// result of the action it was last asked to perform.
#[derive(Debug, Clone, PartialEq, Eq)]
pub enum CycleEvent {
    /// The scheduler's tick: a new cycle begins.
    Tick,
    /// The outcome of a `FetchRecord` action.
    RecordFetched(ReadEvent),
    /// The outcome of a `ResolveIp` action: the address, if one was found.
    IpResolved(Option<String>),
    /// The outcome of an `UpdateRecord` action, with the address written.
    UpdateCompleted { new_ip: String, result: WriteEvent },
}

/// What resolving the public IP yields: the fresh address when one was
/// found, and the resolution error otherwise.
pub open spec fn resolve_outcome(
    resolved: Option<String>,
    r: Result<String, DnsRecordManagerError>,
) -> bool {
    match resolved {
        Some(ip) => r matches Ok(got) && got == ip,
        None => r matches Err(e) && e is UnableToGetPublicIp,
    }
}

/// What interpreting a read of the A-record yields: the first record of a
/// well-formed, non-empty payload, and the matching error kind otherwise.
pub open spec fn read_outcome(ev: ReadEvent, r: Result<DnsRecord, DnsRecordManagerError>) -> bool {
    match ev {
        ReadEvent::SendFailed(m) => r matches Err(e)
            && e matches DnsRecordManagerError::RequestFail(m2) && m2 == m,
        ReadEvent::FailedStatus(text) => match text {
            Some(t) => r matches Err(e) && e matches DnsRecordManagerError::Unexpected(m2)
                && m2@ == "Error response from Godaddy: "@ + t@,
            None => r matches Err(e) && e matches DnsRecordManagerError::Unexpected(m2)
                && m2@ == "Reponse is not text"@,
        },
        ReadEvent::Succeeded(body) => match record_datas_of(body@) {
            Err(pm) => r matches Err(e)
                && e matches DnsRecordManagerError::FailToParseResponse(m2) && m2@ == pm,
            Ok(ds) => if ds.len() == 0 {
                r matches Err(e) && e matches DnsRecordManagerError::Unexpected(m2)
                    && m2@ == "Cannot find DNS record."@
            } else {
                r matches Ok(rec) && rec.data@ == ds[0]
            },
        },
    }
}

/// A read event that yields a record: a success status whose payload parses
/// to a non-empty record list.
pub open spec fn read_succeeds(ev: ReadEvent) -> bool {
    ev matches ReadEvent::Succeeded(body)
        && record_datas_of(body@) matches Ok(ds) && ds.len() > 0
}

/// The record value a successful read yields: the `data` of the payload's
/// first record.
pub open spec fn read_data(ev: ReadEvent) -> Seq<char>
    recommends
        read_succeeds(ev),
{
    match ev {
        ReadEvent::Succeeded(body) => match record_datas_of(body@) {
            Ok(ds) => if ds.len() > 0 {
                ds[0]
            } else {
                Seq::empty()
            },
            Err(_) => Seq::empty(),
        },
        _ => Seq::empty(),
    }
}

/// What interpreting a write of the A-record yields: success exactly when
/// the provider accepted it, and the matching error kind otherwise.
pub open spec fn update_outcome(ev: WriteEvent, r: Result<(), DnsRecordManagerError>) -> bool {
    match ev {
        WriteEvent::SendFailed(m) => r matches Err(e)
            && e matches DnsRecordManagerError::RequestFail(m2) && m2 == m,
        WriteEvent::FailedStatus(body) => r matches Err(e)
            && e matches DnsRecordManagerError::UpdateRecordError(m2) && m2 == body,
        WriteEvent::Succeeded => r is Ok,
    }
}

/// The capability interface of a DNS record manager: interpreting the
/// resolver's and the provider's answers, and advancing one reconciliation
/// cycle step by step.  Each implementation fixes, through its spec
/// functions, what its cached state is and what its provider's answers
/// mean.
pub trait DnsRecordManager: Sized {
    /// The cached record value, if a cycle has established one.
    spec fn cached(&self) -> Option<Seq<char>>;

    /// What interpreting a read event yields for this provider.
    spec fn read_ens(&self, ev: ReadEvent, r: Result<DnsRecord, DnsRecordManagerError>) -> bool;

    /// What interpreting a write event yields for this provider.
    spec fn write_ens(&self, ev: WriteEvent, r: Result<(), DnsRecordManagerError>) -> bool;

    /// How one cycle step moves the manager from its old state to `post`.
    spec fn run_ens(
        &self,
        post: Self,
        event: CycleEvent,
        r: Result<CycleAction, DnsRecordManagerError>,
    ) -> bool;

    /// Turns the resolver's answer into the cycle's fresh public IP, or
    /// the resolution failure.
    fn get_current_public_ip(resolved: Option<String>) -> (r: Result<
        String,
        DnsRecordManagerError,
    >)
        ensures
            resolve_outcome(resolved, r),
    ;

    /// Turns a read event into the A-record it carries, or the failure.
    fn get_arecord_detail(&self, ev: ReadEvent) -> (r: Result<DnsRecord, DnsRecordManagerError>)
        ensures
            self.read_ens(ev, r),
    ;

    /// Turns a write event for `new_ip` into the write's confirmation, or
    /// the failure.
    fn update_arecord_detail(&self, new_ip: &str, ev: WriteEvent) -> (r: Result<
        (),
        DnsRecordManagerError,
    >)
        ensures
            self.write_ens(ev, r),
    ;

    /// Advances one cycle by one step: consumes the event and answers with
    /// the next action, or with the error that aborts the cycle.
    fn run(&mut self, event: CycleEvent) -> (r: Result<CycleAction, DnsRecordManagerError>)
        ensures
            old(self).run_ens(*final(self), event, r),
    ;
}

/// The manager of one GoDaddy A-record: the configuration and the record
/// value last confirmed by the provider, if any.
pub struct GodaddyDnsRecordManager {
    pub config: GodaddyConfig,
    pub current_record: Option<DnsRecord>,
}

impl GodaddyDnsRecordManager {
    /// A manager that has not yet read the provider's record.
    pub fn new(config: GodaddyConfig) -> (m: Self)
        ensures
            m.config == config,
            m.current_record is None,
    {
        GodaddyDnsRecordManager { config, current_record: None }
    }
}

/// How one cycle step of the GoDaddy manager relates its old state `pre`,
/// its new state `post`, the event consumed and the answer given.
///
/// The cache advances in exactly two places: a fetched record fills an
/// empty cache, and a confirmed write overwrites the cached value.  Every
/// other step, and every failing step, leaves the state unchanged.
pub open spec fn run_transition(
    pre: GodaddyDnsRecordManager,
    post: GodaddyDnsRecordManager,
    event: CycleEvent,
    r: Result<CycleAction, DnsRecordManagerError>,
) -> bool {
    &&& post.config == pre.config
    &&& match event {
        CycleEvent::Tick => {
            &&& post == pre
            &&& match pre.current_record {
                None => r matches Ok(a) && a is FetchRecord,
                Some(_) => r matches Ok(a) && a is ResolveIp,
            }
        },
        CycleEvent::RecordFetched(ev) => if read_succeeds(ev) {
            &&& post.cached() == Some(read_data(ev))
            &&& r matches Ok(a) && a is ResolveIp
        } else {
            &&& post == pre
            &&& r matches Err(e) && read_outcome(ev, Err(e))
        },
        CycleEvent::IpResolved(resolved) => {
            &&& post == pre
            &&& match resolved {
                None => r matches Err(e) && e is UnableToGetPublicIp,
                Some(ip) => match pre.current_record {
                    None => r matches Err(e) && e matches DnsRecordManagerError::Unexpected(m)
                        && m@ == "Current record should be set"@,
                    Some(rec) => if ip@ == rec.data@ {
                        r matches Ok(a) && a matches CycleAction::Finish(o)
                            && o is NoChangeNeeded
                    } else {
                        r matches Ok(a) && a matches CycleAction::UpdateRecord { new_ip }
                            && new_ip == ip
                    },
                },
            }
        },
        CycleEvent::UpdateCompleted { new_ip, result } => match result {
            WriteEvent::Succeeded => match pre.current_record {
                None => {
                    &&& post == pre
                    &&& r matches Err(e) && e matches DnsRecordManagerError::Unexpected(m)
                        && m@ == "Current record should be set"@
                },
                Some(rec) => {
                    &&& post.cached() == Some(new_ip@)
                    &&& r matches Ok(a) && a matches CycleAction::Finish(o)
                        && o matches ReconciliationOutcome::Updated {
                            old_ip: prev,
                            new_ip: applied,
                        } && prev == rec.data && applied == new_ip
                },
            },
            _ => {
                &&& post == pre
                &&& r matches Err(e) && update_outcome(result, Err(e))
            },
        },
    }
}

impl DnsRecordManager for GodaddyDnsRecordManager {
    open spec fn cached(&self) -> Option<Seq<char>> {
        match self.current_record {
            Some(rec) => Some(rec.data@),
            None => None,
        }
    }

    open spec fn read_ens(
        &self,
        ev: ReadEvent,
        r: Result<DnsRecord, DnsRecordManagerError>,
    ) -> bool {
        read_outcome(ev, r)
    }

    open spec fn write_ens(&self, ev: WriteEvent, r: Result<(), DnsRecordManagerError>) -> bool {
        update_outcome(ev, r)
    }

    open spec fn run_ens(
        &self,
        post: Self,
        event: CycleEvent,
        r: Result<CycleAction, DnsRecordManagerError>,
    ) -> bool {
        run_transition(*self, post, event, r)
    }

    fn get_current_public_ip(resolved: Option<String>) -> (r: Result<
        String,
        DnsRecordManagerError,
    >) {
        match resolved {
            Some(ip) => Ok(ip),
            None => Err(DnsRecordManagerError::UnableToGetPublicIp),
        }
    }

    fn get_arecord_detail(&self, ev: ReadEvent) -> (r: Result<DnsRecord, DnsRecordManagerError>) {
        match ev {
            ReadEvent::SendFailed(m) => Err(DnsRecordManagerError::RequestFail(m)),
            ReadEvent::FailedStatus(Some(t)) => {
                let mut msg = String::from_str("Error response from Godaddy: ");
                msg.append(t.as_str());
                Err(DnsRecordManagerError::Unexpected(msg))
            },
            ReadEvent::FailedStatus(None) => Err(
                DnsRecordManagerError::Unexpected(String::from_str("Reponse is not text")),
            ),
            ReadEvent::Succeeded(body) => match crate::wire::parse_record_datas(body.as_str()) {
                Err(pm) => Err(DnsRecordManagerError::FailToParseResponse(pm)),
                Ok(mut recs) => if recs.len() == 0 {
                    Err(DnsRecordManagerError::Unexpected(
                        String::from_str("Cannot find DNS record."),
                    ))
                } else {
                    let rec = recs.remove(0);
                    Ok(rec)
                },
            },
        }
    }

    fn update_arecord_detail(&self, new_ip: &str, ev: WriteEvent) -> (r: Result<
        (),
        DnsRecordManagerError,
    >) {
        match ev {
            WriteEvent::SendFailed(m) => Err(DnsRecordManagerError::RequestFail(m)),
            WriteEvent::FailedStatus(body) => Err(DnsRecordManagerError::UpdateRecordError(body)),
            WriteEvent::Succeeded => Ok(()),
        }
    }

    fn run(&mut self, event: CycleEvent) -> (r: Result<CycleAction, DnsRecordManagerError>) {
        match event {
            CycleEvent::Tick => {
                if self.current_record.is_none() {
                    Ok(CycleAction::FetchRecord)
                } else {
                    Ok(CycleAction::ResolveIp)
                }
            },
            CycleEvent::RecordFetched(ev) => match self.get_arecord_detail(ev) {
                Ok(rec) => {
                    self.current_record = Some(rec);
                    Ok(CycleAction::ResolveIp)
                },
                Err(e) => Err(e),
            },
            CycleEvent::IpResolved(resolved) => {
                match Self::get_current_public_ip(resolved) {
                    Err(e) => Err(e),
                    Ok(ip) => match &self.current_record {
                        None => Err(DnsRecordManagerError::Unexpected(
                            String::from_str("Current record should be set"),
                        )),
                        Some(rec) => if ip == rec.data {
                            Ok(CycleAction::Finish(ReconciliationOutcome::NoChangeNeeded))
                        } else {
                            Ok(CycleAction::UpdateRecord { new_ip: ip })
                        },
                    },
                }
            },
            CycleEvent::UpdateCompleted { new_ip, result } => {
                match self.update_arecord_detail(new_ip.as_str(), result) {
                    Err(e) => Err(e),
                    Ok(()) => {
                        let previous: Option<String> = match &self.current_record {
                            None => None,
                            Some(rec) => Some(rec.data.clone()),
                        };
                        match previous {
                            None => Err(DnsRecordManagerError::Unexpected(
                                String::from_str("Current record should be set"),
                            )),
                            Some(old_ip) => {
                                self.current_record = Some(DnsRecord { data: new_ip.clone() });
                                Ok(CycleAction::Finish(ReconciliationOutcome::Updated {
                                    old_ip,
                                    new_ip,
                                }))
                            },
                        }
                    },
                }
            },
        }
    }
}

} // verus!
