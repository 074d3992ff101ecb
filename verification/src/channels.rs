//! Distribution router: fans each accepted alert out to the four sink
//! queues with a non-blocking, drop-if-full enqueue, so that a slow or
//! stalled sink never blocks detection or the other sinks. The overflow
//! policy is drop-newest for every sink: on a full queue the fresh copy is
//! the one that is lost.

use vstd::prelude::*;

use crate::models::Alert;

verus! {

#[verifier::external_type_specification]
#[verifier::external_body]
#[verifier::reject_recursive_types(T)]
pub struct ExSender<T>(tokio::sync::mpsc::Sender<T>);

/// Relies on tokio's mpsc `Sender::try_send`: a non-blocking enqueue that
/// fails when the queue is full or the receiver is gone. Whether it
/// succeeds depends on runtime queue state, so nothing is promised of the
/// result beyond its being the success flag of this one attempt.
#[verifier::external_body]
fn try_send_alert(tx: &tokio::sync::mpsc::Sender<Alert>, alert: Alert) -> (r: bool)
{
    tx.try_send(alert).is_ok()
}

/// Relies on tokio's mpsc `Sender::clone`: another handle to the same
/// queue. The handle is opaque here, so nothing is stated of it.
#[verifier::external_body]
fn clone_sender(tx: &tokio::sync::mpsc::Sender<Alert>) -> (r: tokio::sync::mpsc::Sender<Alert>)
{
    tx.clone()
}

/// One outbound queue handle per sink; stateless beyond those handles.
pub struct AlertChannels {
    pub history_tx: tokio::sync::mpsc::Sender<Alert>,
    pub notification_tx: tokio::sync::mpsc::Sender<Alert>,
    pub mqtt_tx: tokio::sync::mpsc::Sender<Alert>,
    pub web_tx: tokio::sync::mpsc::Sender<Alert>,
}

impl Clone for AlertChannels {
    fn clone(&self) -> (r: Self) {
        AlertChannels {
            history_tx: clone_sender(&self.history_tx),
            notification_tx: clone_sender(&self.notification_tx),
            mqtt_tx: clone_sender(&self.mqtt_tx),
            web_tx: clone_sender(&self.web_tx),
        }
    }
}

impl AlertChannels {
    /// Bundle the four sink queue handles.
    pub fn new(
        history_tx: tokio::sync::mpsc::Sender<Alert>,
        notification_tx: tokio::sync::mpsc::Sender<Alert>,
        mqtt_tx: tokio::sync::mpsc::Sender<Alert>,
        web_tx: tokio::sync::mpsc::Sender<Alert>,
    ) -> (r: Self)
        ensures
            r.history_tx == history_tx,
            r.notification_tx == notification_tx,
            r.mqtt_tx == mqtt_tx,
            r.web_tx == web_tx,
    {
        AlertChannels { history_tx, notification_tx, mqtt_tx, web_tx }
    }

    /// Offer a copy of the alert to every sink queue, best-effort: a full
    /// queue drops the copy rather than blocking. Returns how many sinks
    /// took the alert.
    pub fn distribute(&self, alert: Alert) -> (delivered: u32)
        ensures
            delivered <= 4,
    {
        let mut delivered: u32 = 0;
        if try_send_alert(&self.history_tx, alert.clone()) {
            delivered += 1;
        }
        if try_send_alert(&self.notification_tx, alert.clone()) {
            delivered += 1;
        }
        if try_send_alert(&self.mqtt_tx, alert.clone()) {
            delivered += 1;
        }
        if try_send_alert(&self.web_tx, alert) {
            delivered += 1;
        }
        delivered
    }
}

} // verus!
