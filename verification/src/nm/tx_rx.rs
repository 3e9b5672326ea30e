use crate::dbus_queue::{queue_push, DBusQueue};
use mini_sansio_dbus::messages::network_manager::RefreshRateMs;
use mini_sansio_dbus::messaging::DBusEncode;
use mini_sansio_dbus::EncodeError;
use vstd::prelude::*;

verus! {

/// How often NetworkManager is asked to refresh the byte counters of a device, in milliseconds.
pub const REFRESH_RATE_MS: u32 = 1_000;

/// The byte counters of the primary device that arrived in one message.
#[derive(Debug, Clone, Copy)]
pub struct TxRxEvent {
    pub tx: Option<u64>,
    pub rx: Option<u64>,
}

impl TxRxEvent {
    /// The counters that arrived in one message, when at least one of them did.
    pub fn from_readings(tx: Option<u64>, rx: Option<u64>) -> (r: Option<TxRxEvent>)
        ensures
            r is Some <==> (tx is Some || rx is Some),
            r matches Some(e) ==> e.tx == tx && e.rx == rx,
    {
        let e = TxRxEvent { tx, rx };
        if e.tx.is_some() || e.rx.is_some() {
            Some(e)
        } else {
            None
        }
    }
}


/// The D-Bus message that sets the `RefreshRateMs` property of the device at `path` to `ms`, as
/// `RefreshRateMs::encode` lays it out in a 1 KiB buffer, or `None` when it does not fit.
pub uninterp spec fn refresh_rate_message(path: Seq<char>, ms: u32) -> Option<Seq<u8>>;

/// `RefreshRateMs::encode` into a 1 KiB buffer; its result is named by `refresh_rate_message`.
#[verifier::external_body]
fn encode_refresh_rate(path: &str, ms: u32) -> (r: Result<Vec<u8>, EncodeError>)
    ensures
        match r {
            Ok(m) => refresh_rate_message(path@, ms) == Some(m@),
            Err(_) => refresh_rate_message(path@, ms) is None,
        },
{
    let mut buf = [0; 1_024];
    match RefreshRateMs::encode((path, ms), &mut buf) {
        Ok(m) => Ok(m.to_vec()),
        Err(e) => Err(e),
    }
}

/// Asks NetworkManager to refresh the byte counters of a device every `REFRESH_RATE_MS`.
pub struct Configure;

impl Configure {
    /// Queues the message that sets the refresh rate of the device at `path`; when it cannot be
    /// encoded, nothing is queued and the error is returned.
    pub fn send(path: &str, q: &mut DBusQueue) -> (r: Result<(), EncodeError>)
        ensures
            match refresh_rate_message(path@, REFRESH_RATE_MS) {
                Some(m) => r is Ok && final(q)@ == queue_push(old(q)@, m),
                None => r is Err && final(q)@ == old(q)@,
            },
    {
        let encoded = encode_refresh_rate(path, REFRESH_RATE_MS)?;
        q.push_raw(encoded.as_slice());
        Ok(())
    }
}

} // verus!
