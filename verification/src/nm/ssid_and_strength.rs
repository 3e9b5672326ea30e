use crate::text::str_from_utf8;
use vstd::prelude::*;
use vstd::utf8::{decode_utf8, valid_utf8};

verus! {

broadcast use vstd::string::group_string_axioms;

/// The longest SSID that is read from NetworkManager, in bytes (the 802.11 limit).
pub const MAX_SSID_LEN: usize = 32;

/// The SSID and the signal strength of the active access point that arrived in one message.
#[derive(Debug)]
pub struct SsidAndStrengthEvent {
    pub ssid: Option<String>,
    pub strength: Option<u8>,
}

/// The mathematical value of a [`SsidAndStrengthEvent`].
pub struct SsidAndStrengthEventView {
    pub ssid: Option<Seq<char>>,
    pub strength: Option<u8>,
}

impl View for SsidAndStrengthEvent {
    type V = SsidAndStrengthEventView;

    open spec fn view(&self) -> SsidAndStrengthEventView {
        SsidAndStrengthEventView {
            ssid: match self.ssid {
                Some(s) => Some(s@),
                None => None,
            },
            strength: self.strength,
        }
    }
}

/// The SSID that raw SSID bytes stand for: their text when they are valid UTF-8.
pub open spec fn spec_ssid_text(bytes: Seq<u8>) -> Option<Seq<char>> {
    if valid_utf8(bytes) {
        Some(decode_utf8(bytes))
    } else {
        None
    }
}

/// The text of the SSID bytes, or `None` when they are not valid UTF-8.
pub fn ssid_from_bytes(bytes: &[u8]) -> (r: Option<String>)
    ensures
        r is Some <==> spec_ssid_text(bytes@) is Some,
        r matches Some(s) ==> Some(s@) == spec_ssid_text(bytes@),
{
    match str_from_utf8(bytes) {
        Ok(text) => {
            proof {
                vstd::utf8::encode_utf8_decode_utf8(text@);
            }
            Some(text.to_string())
        },
        Err(_) => None,
    }
}

impl SsidAndStrengthEvent {
    /// The readings that arrived in one message, when at least one of them is usable; SSID bytes
    /// that are not UTF-8 are left out.
    pub fn from_readings(ssid: Option<&[u8]>, strength: Option<u8>) -> (r: Option<Self>)
        ensures
            ({
                let text = match ssid {
                    Some(b) => spec_ssid_text(b@),
                    None => None,
                };
                &&& r is Some <==> (text is Some || strength is Some)
                &&& r matches Some(e) ==> e@ == (SsidAndStrengthEventView { ssid: text, strength })
            }),
    {
        let ssid = match ssid {
            Some(bytes) => ssid_from_bytes(bytes),
            None => None,
        };
        if ssid.is_some() || strength.is_some() {
            Some(SsidAndStrengthEvent { ssid, strength })
        } else {
            None
        }
    }
}

} // verus!
