//! The watcher: one metrics registry, one readiness probe registered into
//! it as the `up` gauge, and one termination-broadcast channel shared by
//! every server instance. The routing of the HTTP surface is decided here;
//! binding a listener and serving connections is left to the embedding
//! process.

use vstd::prelude::*;

use crate::http;
use crate::http::ContentType;
use crate::http::HttpResponse;
use crate::http::conditions_json;
use crate::metrics;
use crate::readiness_probe::ConditionSet;
use crate::readiness_probe::ReadinessProbe;
use crate::readiness_probe::all_ready;
use prometheus_client::registry::Registry;
use std::sync::Arc;
use std::sync::RwLock;
use std::sync::RwLockWriteGuard;
use tokio::sync::broadcast::Receiver;
use tokio::sync::broadcast::Sender;
use tokio::sync::broadcast::error::SendError;

verus! {

#[verifier::external_type_specification]
#[verifier::external_body]
#[verifier::reject_recursive_types(T)]
pub struct ExSender<T>(Sender<T>);

#[verifier::external_type_specification]
#[verifier::external_body]
#[verifier::reject_recursive_types(T)]
pub struct ExReceiver<T>(Receiver<T>);

#[verifier::external_type_specification]
#[verifier::external_body]
#[verifier::reject_recursive_types(T)]
pub struct ExSendError<T>(SendError<T>);

/// Relies on `tokio::sync::broadcast::channel` with capacity 1: a fresh
/// termination channel. The initial receiver is dropped, so a send before
/// any server has subscribed reports that there is nothing to stop.
#[verifier::external_body]
fn new_termination_channel() -> Sender<()> {
    let (sender, _receiver) = tokio::sync::broadcast::channel(1);
    sender
}

/// Relies on `tokio::sync::broadcast::Sender::send`: `Ok(n)` with `n` the
/// number of receivers the value was sent to — necessarily at least 1 —
/// and `Err` exactly when no receiver was subscribed at the time of the
/// call.
#[verifier::external_body]
fn send_termination(sender: &Sender<()>) -> (r: Result<usize, SendError<()>>)
    ensures
        r matches Ok(n) ==> n >= 1,
{
    sender.send(())
}

/// Relies on `tokio::sync::broadcast::Sender::clone`: the clone sends into
/// the same channel.
#[verifier::external_body]
fn clone_termination_sender(sender: &Sender<()>) -> Sender<()> {
    sender.clone()
}

/// Rendering the metrics exposition failed for this one request; the server
/// keeps serving others.
#[derive(Clone, Copy, PartialEq, Eq, Structural, Debug)]
pub enum RenderError {
    MetricsEncode,
}

/// Nothing to stop: no server instance was subscribed to the termination
/// channel when the stop was requested. Reportable, not fatal.
#[derive(Clone, Copy, PartialEq, Eq, Structural, Debug)]
pub enum StopServerError {
    NoActiveServers,
}

/// One watcher per process: the shared metrics registry, the readiness
/// probe whose `up` gauge is registered in it, and the termination channel
/// that stops every server instance at once.
pub struct Watcher {
    metrics_registry: Arc<RwLock<Registry>>,
    readiness_probe: ReadinessProbe,
    termination_signal: Sender<()>,
}

impl Watcher {
    /// The names of the probe's conditions, fixed at construction.
    pub closed spec fn probe_names(&self) -> Seq<Seq<char>> {
        self.readiness_probe.names()
    }

    /// Builds a watcher over the given conditions: a fresh registry, a
    /// fresh probe, and the probe's gauge registered under `up`.
    pub fn new(conditions: ConditionSet) -> (r: Self)
        ensures
            r.probe_names() == conditions@,
    {
        let metrics_registry = metrics::new_shared_registry();
        let readiness_probe = ReadinessProbe::new(conditions);
        let termination_signal = new_termination_channel();
        let gauge = readiness_probe.up_gauge();
        {
            let mut guard = metrics::registry_write(&metrics_registry);
            metrics::registry_register_gauge(
                &mut guard,
                "up",
                "Overall system readiness",
                gauge,
            );
        }
        Watcher { metrics_registry, readiness_probe, termination_signal }
    }

    /// An exclusive, short-lived handle on the registry, for registering
    /// further instruments or sub-registries. Holding it blocks the
    /// metrics-export path, so release it promptly.
    pub fn metrics_registry(&self) -> RwLockWriteGuard<'_, Registry> {
        metrics::registry_write(&self.metrics_registry)
    }

    /// A handle on the same underlying probe state, for subsystems to mark
    /// their conditions.
    pub fn readiness_probe(&self) -> (r: ReadinessProbe)
        ensures
            r.names() == self.probe_names(),
    {
        self.readiness_probe.clone()
    }

    /// Answers one request of the health surface by its path, whatever the
    /// method. `/alive` and unknown paths are constant; `/ready` reports
    /// one observed probe state, 200 iff it was aggregate-ready, with the
    /// JSON report of that same state as body; `/metrics` renders the
    /// registry, failing only this one request if the encoder fails.
    pub fn respond(&self, path: &str) -> (r: Result<HttpResponse, RenderError>)
        ensures
            path@ == "/metrics"@ ==> (r matches Ok(resp) ==> (resp.status == 200
                && resp.content_type == ContentType::TextPlain)),
            path@ == "/ready"@ ==> (r matches Ok(resp) && resp.content_type
                == ContentType::ApplicationJson && (exists|flags: Seq<bool>|
                #![auto]
                flags.len() == self.probe_names().len() && resp.status == (if all_ready(flags) {
                    200int
                } else {
                    503int
                }) && resp.body@ == conditions_json(self.probe_names(), flags))),
            path@ == "/alive"@ ==> (r matches Ok(resp) && resp.status == 200 && resp.content_type
                == ContentType::TextPlain && resp.body@ == "alive"@),
            (path@ != "/metrics"@ && path@ != "/ready"@ && path@ != "/alive"@) ==> (r matches Ok(
                resp,
            ) && resp.status == 404 && resp.content_type == ContentType::TextPlain && resp.body@
                == "Not found"@),
            r is Err ==> path@ == "/metrics"@,
    {
        proof {
            reveal_strlit("/metrics");
            reveal_strlit("/ready");
            reveal_strlit("/alive");
            assert("/metrics"@.len() == 8 && "/ready"@.len() == 6 && "/alive"@.len() == 6);
            assert("/ready"@[1] == 'r' && "/alive"@[1] == 'a');
            assert("/metrics"@ != "/ready"@ && "/metrics"@ != "/alive"@ && "/ready"@
                != "/alive"@);
        }
        if http::str_eq(path, "/metrics") {
            let guard = metrics::registry_read(&self.metrics_registry);
            match metrics::encode_registry(&guard) {
                Some(text) => Ok(http::metrics_response(text)),
                None => Err(RenderError::MetricsEncode),
            }
        } else if http::str_eq(path, "/ready") {
            let (names, flags) = self.readiness_probe.snapshot();
            let resp = http::ready_response(&names, &flags);
            proof {
                assert(flags@.len() == self.probe_names().len() && resp.status == (
                if all_ready(flags@) {
                    200int
                } else {
                    503int
                }) && resp.body@ == conditions_json(self.probe_names(), flags@));
            }
            Ok(resp)
        } else if http::str_eq(path, "/alive") {
            Ok(http::alive_response())
        } else {
            Ok(http::not_found_response())
        }
    }

    /// Requests shutdown of every active server instance. Fails exactly
    /// when no server is subscribed to the termination channel: a
    /// reportable, non-fatal condition.
    pub fn stop_server(&mut self) -> (r: Result<usize, StopServerError>)
        ensures
            *final(self) == *old(self),
            r matches Ok(n) ==> n >= 1,
            r matches Err(e) ==> e == StopServerError::NoActiveServers,
    {
        match send_termination(&self.termination_signal) {
            Ok(n) => Ok(n),
            Err(_) => Err(StopServerError::NoActiveServers),
        }
    }

    /// Relies on `tokio::sync::broadcast::Sender::subscribe`: a receiver
    /// that observes termination signals sent after this call. A server
    /// instance subscribes at spawn time and stops accepting connections
    /// when the signal arrives.
    #[verifier::external_body]
    pub fn subscribe_termination(&self) -> Receiver<()> {
        self.termination_signal.subscribe()
    }
}

impl Clone for Watcher {
    /// The clone shares the registry, the probe state and the termination
    /// channel of the original.
    fn clone(&self) -> (r: Self)
        ensures
            r.probe_names() == self.probe_names(),
    {
        Watcher {
            metrics_registry: metrics::clone_arc(&self.metrics_registry),
            readiness_probe: self.readiness_probe.clone(),
            termination_signal: clone_termination_sender(&self.termination_signal),
        }
    }
}

} // verus!
