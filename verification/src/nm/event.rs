use vstd::prelude::*;

verus! {

/// The updates of the network monitor as the NetworkManager side names them.
#[derive(Debug)]
pub enum Event {
    UploadSpeed { bytes_per_sec: u64 },
    DownloadSpeed { bytes_per_sec: u64 },
    NetworkSsidAndStrength { ssid: String, strength: u8 },
}

} // verus!
