//! The reconciliation laws: what holds of every cycle of the GoDaddy
//! manager, stated over the step relation `run_transition` that the
//! manager's `run` method ensures.

use vstd::prelude::*;
use crate::dns_record_manager::{
    run_transition, CycleAction, CycleEvent, DnsRecordManager, DnsRecordManagerError,
    GodaddyDnsRecordManager, ReadEvent, WriteEvent,
};
use crate::wire::record_datas_of;

verus! {

/// A cycle whose resolved public IP equals the cached record value ends
/// with `NoChangeNeeded`, asks for no write and leaves the state
/// untouched, whatever the address is.
pub proof fn no_op_cycle_needs_no_write(
    pre: GodaddyDnsRecordManager,
    post: GodaddyDnsRecordManager,
    ip: String,
    r: Result<CycleAction, DnsRecordManagerError>,
)
    requires
        pre.current_record matches Some(rec) && rec.data@ == ip@,
        run_transition(pre, post, CycleEvent::IpResolved(Some(ip)), r),
    ensures
        post == pre,
        r matches Ok(a) && a matches CycleAction::Finish(o) && o is NoChangeNeeded,
{
}

/// A cycle whose resolved public IP differs from the cached record value
/// asks for exactly one write, carrying exactly the resolved address, and
/// does not advance the cache by itself.
pub proof fn drift_requests_one_write(
    pre: GodaddyDnsRecordManager,
    post: GodaddyDnsRecordManager,
    ip: String,
    r: Result<CycleAction, DnsRecordManagerError>,
)
    requires
        pre.current_record matches Some(rec) && rec.data@ != ip@,
        run_transition(pre, post, CycleEvent::IpResolved(Some(ip)), r),
    ensures
        post == pre,
        r matches Ok(a) && a matches CycleAction::UpdateRecord { new_ip } && new_ip == ip,
{
}

/// A rejected or undeliverable write leaves the cached record exactly as
/// it was, and a later cycle that resolves the same address detects the
/// same drift and asks for the write again.
pub proof fn failed_write_keeps_cache_and_drift(
    pre: GodaddyDnsRecordManager,
    post: GodaddyDnsRecordManager,
    post2: GodaddyDnsRecordManager,
    ip: String,
    ip2: String,
    wev: WriteEvent,
    r: Result<CycleAction, DnsRecordManagerError>,
    r2: Result<CycleAction, DnsRecordManagerError>,
)
    requires
        pre.current_record matches Some(rec) && rec.data@ != ip@,
        !(wev is Succeeded),
        run_transition(pre, post, CycleEvent::UpdateCompleted { new_ip: ip, result: wev }, r),
        ip2@ == ip@,
        run_transition(post, post2, CycleEvent::IpResolved(Some(ip2)), r2),
    ensures
        post == pre,
        r is Err,
        post2 == pre,
        r2 matches Ok(a) && a matches CycleAction::UpdateRecord { new_ip } && new_ip == ip2,
{
}

/// A confirmed write advances the cached record to the written address,
/// and a later cycle that resolves that same address ends with
/// `NoChangeNeeded`.
pub proof fn confirmed_write_advances_cache(
    pre: GodaddyDnsRecordManager,
    post: GodaddyDnsRecordManager,
    post2: GodaddyDnsRecordManager,
    ip: String,
    ip2: String,
    r: Result<CycleAction, DnsRecordManagerError>,
    r2: Result<CycleAction, DnsRecordManagerError>,
)
    requires
        pre.current_record is Some,
        run_transition(
            pre,
            post,
            CycleEvent::UpdateCompleted { new_ip: ip, result: WriteEvent::Succeeded },
            r,
        ),
        ip2@ == ip@,
        run_transition(post, post2, CycleEvent::IpResolved(Some(ip2)), r2),
    ensures
        post.cached() == Some(ip@),
        r matches Ok(a) && a matches CycleAction::Finish(o) && o is Updated,
        post2 == post,
        r2 matches Ok(a) && a matches CycleAction::Finish(o) && o is NoChangeNeeded,
{
}

/// With no cached record, a cycle begins with exactly one read, before any
/// comparison can happen.
pub proof fn first_run_reads_before_compare(
    pre: GodaddyDnsRecordManager,
    post: GodaddyDnsRecordManager,
    r: Result<CycleAction, DnsRecordManagerError>,
)
    requires
        pre.current_record is None,
        run_transition(pre, post, CycleEvent::Tick, r),
    ensures
        post == pre,
        r matches Ok(a) && a is FetchRecord,
{
}

/// A first read whose payload is an empty record list fails the cycle with
/// the record-not-found kind: the cache stays empty and no write is asked
/// for.
pub proof fn empty_read_fails_without_write(
    pre: GodaddyDnsRecordManager,
    post: GodaddyDnsRecordManager,
    body: String,
    r: Result<CycleAction, DnsRecordManagerError>,
)
    requires
        pre.current_record is None,
        record_datas_of(body@) matches Ok(ds) && ds.len() == 0,
        run_transition(pre, post, CycleEvent::RecordFetched(ReadEvent::Succeeded(body)), r),
    ensures
        post == pre,
        r matches Err(e) && e matches DnsRecordManagerError::Unexpected(m)
            && m@ == "Cannot find DNS record."@,
{
}

/// When the public IP cannot be resolved and a cache already exists, the
/// cycle aborts without asking for any provider read or write, and the
/// cache is unchanged.
pub proof fn resolver_failure_short_circuits(
    pre: GodaddyDnsRecordManager,
    mid: GodaddyDnsRecordManager,
    post: GodaddyDnsRecordManager,
    r_tick: Result<CycleAction, DnsRecordManagerError>,
    r_resolve: Result<CycleAction, DnsRecordManagerError>,
)
    requires
        pre.current_record is Some,
        run_transition(pre, mid, CycleEvent::Tick, r_tick),
        run_transition(mid, post, CycleEvent::IpResolved(None), r_resolve),
    ensures
        mid == pre,
        r_tick matches Ok(a) && a is ResolveIp,
        post == pre,
        r_resolve matches Err(e) && e is UnableToGetPublicIp,
{
}

} // verus!
