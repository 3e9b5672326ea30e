use crate::text::{char_utf8_bytes, char_utf8_len, lemma_encode_utf8_push, str_from_utf8};
use crate::wire::{
    lemma_u32_be_roundtrip, lemma_u64_be_roundtrip, read_u32_be, read_u64_be, u32_be_bytes,
    u32_from_be, u64_be_bytes, u64_from_be, write_u32_be, write_u64_be,
};
use vstd::prelude::*;
use vstd::utf8::*;

verus! {

broadcast use vstd::string::group_string_axioms;

/// An update that the daemon sends to its clients.
#[derive(Debug, PartialEq, Eq)]
pub enum Event {
    UploadSpeed { bytes_per_sec: u64 },
    DownloadSpeed { bytes_per_sec: u64 },
    SsidAndStrength { ssid: String, strength: u8 },
}

/// The mathematical value of an [`Event`]: the SSID is taken as its characters.
pub enum EventView {
    UploadSpeed { bytes_per_sec: u64 },
    DownloadSpeed { bytes_per_sec: u64 },
    SsidAndStrength { ssid: Seq<char>, strength: u8 },
}

impl View for Event {
    type V = EventView;

    open spec fn view(&self) -> EventView {
        match self {
            Event::UploadSpeed { bytes_per_sec } => EventView::UploadSpeed {
                bytes_per_sec: *bytes_per_sec,
            },
            Event::DownloadSpeed { bytes_per_sec } => EventView::DownloadSpeed {
                bytes_per_sec: *bytes_per_sec,
            },
            Event::SsidAndStrength { ssid, strength } => EventView::SsidAndStrength {
                ssid: ssid@,
                strength: *strength,
            },
        }
    }
}

/// Length of a serialized event.
pub const SERIALIZED_LENGTH: usize = 32;

/// An SSID is cut so that its UTF-8 encoding stays strictly below this many bytes.
pub const MAX_SSID_BYTESIZE: usize = 20;

/// `n` zero bytes.
pub open spec fn zeros(n: int) -> Seq<u8> {
    Seq::new(n as nat, |i: int| 0u8)
}

/// The characters of `chars` kept while the UTF-8 encoding of what was kept, together with the
/// next character, stays strictly below `budget` bytes; the first character that does not fit
/// ends the prefix.
pub open spec fn fit_prefix(chars: Seq<char>, budget: int) -> Seq<char>
    decreases chars.len(),
{
    if chars.len() == 0 {
        Seq::empty()
    } else {
        let w = encode_scalar(chars[0] as u32).len() as int;
        if w >= budget {
            Seq::empty()
        } else {
            seq![chars[0]] + fit_prefix(chars.drop_first(), budget - w)
        }
    }
}

/// The SSID as it travels on the wire: its longest prefix whose UTF-8 encoding is at most
/// `MAX_SSID_BYTESIZE - 1` bytes.
pub open spec fn wire_ssid(ssid: Seq<char>) -> Seq<char> {
    fit_prefix(ssid, MAX_SSID_BYTESIZE as int)
}

/// The frame of a speed event: the tag, seven zero bytes, the big-endian speed, and zeros.
pub open spec fn speed_frame(tag: u8, bytes_per_sec: u64) -> Seq<u8> {
    seq![tag] + zeros(7) + u64_be_bytes(bytes_per_sec) + zeros(16)
}

/// The frame of an SSID event: tag 3, the strength, two zero bytes, the big-endian byte length
/// of the SSID, its UTF-8 bytes, and zeros up to the frame length.
pub open spec fn ssid_frame(ssid: Seq<char>, strength: u8) -> Seq<u8> {
    let bytes = encode_utf8(wire_ssid(ssid));
    seq![3u8, strength, 0u8, 0u8] + u32_be_bytes(bytes.len() as u32) + bytes + zeros(
        24 - bytes.len(),
    )
}

/// The bytes that `serialize` produces for an event.
pub open spec fn spec_serialize(e: EventView) -> Seq<u8> {
    match e {
        EventView::UploadSpeed { bytes_per_sec } => speed_frame(1, bytes_per_sec),
        EventView::DownloadSpeed { bytes_per_sec } => speed_frame(2, bytes_per_sec),
        EventView::SsidAndStrength { ssid, strength } => ssid_frame(ssid, strength),
    }
}

/// The SSID length field of a frame.
pub open spec fn ssid_len_field(buf: Seq<u8>) -> u32 {
    u32_from_be(buf.skip(4))
}

/// The SSID bytes of a frame, as many as its length field says.
pub open spec fn ssid_field(buf: Seq<u8>) -> Seq<u8> {
    buf.subrange(8, 8 + ssid_len_field(buf))
}

/// The frames that `deserialize` accepts: a known tag, and for an SSID frame a length that fits
/// the frame and bytes that are valid UTF-8.
pub open spec fn can_deserialize(buf: Seq<u8>) -> bool {
    &&& buf.len() == SERIALIZED_LENGTH
    &&& (buf[0] == 1 || buf[0] == 2 || (buf[0] == 3 && ssid_len_field(buf) <= 24 && valid_utf8(
        ssid_field(buf),
    )))
}

/// The event that `deserialize` reads from a frame.
pub open spec fn spec_deserialize(buf: Seq<u8>) -> EventView {
    if buf[0] == 1 {
        EventView::UploadSpeed { bytes_per_sec: u64_from_be(buf.skip(8)) }
    } else if buf[0] == 2 {
        EventView::DownloadSpeed { bytes_per_sec: u64_from_be(buf.skip(8)) }
    } else {
        EventView::SsidAndStrength { ssid: decode_utf8(ssid_field(buf)), strength: buf[1] }
    }
}

/// What is left of an event after a trip over the wire: the SSID is cut by `wire_ssid`.
pub open spec fn on_the_wire(e: EventView) -> EventView {
    match e {
        EventView::SsidAndStrength { ssid, strength } => EventView::SsidAndStrength {
            ssid: wire_ssid(ssid),
            strength,
        },
        _ => e,
    }
}

/// Copies the first `len` bytes of `bytes` into `out[at..at + len]`.
fn copy_bytes(out: &mut [u8; 32], at: usize, bytes: &[u8; 4], len: usize)
    requires
        len <= 4,
        at + len <= 32,
    ensures
        final(out)@ == old(out)@.take(at as int) + bytes@.take(len as int) + old(out)@.skip(
            at + len,
        ),
{
    let mut k: usize = 0;
    while k < len
        invariant
            k <= len <= 4,
            at + len <= 32,
            out@.len() == 32,
            out@ == old(out)@.take(at as int) + bytes@.take(k as int) + old(out)@.skip(at + k),
        decreases len - k,
    {
        out[at + k] = bytes[k];
        k = k + 1;
        assert(out@ =~= old(out)@.take(at as int) + bytes@.take(k as int) + old(out)@.skip(
            at + k,
        ));
    }
}


/// What `fit_prefix` keeps encodes to fewer than `budget` bytes.
pub proof fn lemma_fit_prefix_encoded_len(chars: Seq<char>, budget: int)
    requires
        budget > 0,
    ensures
        encode_utf8(fit_prefix(chars, budget)).len() < budget,
    decreases chars.len(),
{
    if chars.len() > 0 {
        let w = encode_scalar(chars[0] as u32).len() as int;
        if w < budget {
            let rest = fit_prefix(chars.drop_first(), budget - w);
            lemma_fit_prefix_encoded_len(chars.drop_first(), budget - w);
            let kept = seq![chars[0]] + rest;
            assert(kept[0] == chars[0]);
            assert(kept.drop_first() =~= rest);
        }
    }
}

/// One step of the SSID loop: the character at `i` fits, so it joins the kept prefix.
proof fn lemma_fit_prefix_step(all: Seq<char>, i: int, budget: int)
    requires
        0 <= i < all.len(),
        encode_scalar(all[i] as u32).len() < budget,
    ensures
        all.take(i) + fit_prefix(all.skip(i), budget) == all.take(i + 1) + fit_prefix(
            all.skip(i + 1),
            budget - encode_scalar(all[i] as u32).len(),
        ),
        encode_utf8(all.take(i + 1)) == encode_utf8(all.take(i)) + encode_scalar(all[i] as u32),
{
    let rest = all.skip(i);
    assert(rest[0] == all[i]);
    assert(rest.drop_first() =~= all.skip(i + 1));
    assert(all.take(i + 1) =~= all.take(i).push(all[i]));
    lemma_encode_utf8_push(all.take(i), all[i]);
    assert(all.take(i) + (seq![all[i]] + fit_prefix(
        all.skip(i + 1),
        budget - encode_scalar(all[i] as u32).len(),
    )) =~= all.take(i + 1) + fit_prefix(
        all.skip(i + 1),
        budget - encode_scalar(all[i] as u32).len(),
    ));
}

/// `fit_prefix` keeps every character of a text that already encodes to fewer than `budget` bytes.
pub proof fn lemma_fit_prefix_keeps_short(chars: Seq<char>, budget: int)
    requires
        encode_utf8(chars).len() < budget,
    ensures
        fit_prefix(chars, budget) == chars,
    decreases chars.len(),
{
    if chars.len() > 0 {
        let w = encode_scalar(chars[0] as u32).len() as int;
        assert(encode_utf8(chars) == encode_scalar(chars[0] as u32) + encode_utf8(
            chars.drop_first(),
        ));
        lemma_fit_prefix_keeps_short(chars.drop_first(), budget - w);
        assert(seq![chars[0]] + chars.drop_first() =~= chars);
    }
}

/// `fit_prefix` keeps a prefix of the text that encodes to fewer than `budget` bytes, and it is
/// the longest such prefix: either it is the whole text or one more character would not fit.
pub proof fn lemma_fit_prefix_is_longest(chars: Seq<char>, budget: int)
    requires
        budget > 0,
    ensures
        fit_prefix(chars, budget).len() <= chars.len(),
        fit_prefix(chars, budget) == chars.take(fit_prefix(chars, budget).len() as int),
        encode_utf8(fit_prefix(chars, budget)).len() < budget,
        fit_prefix(chars, budget).len() == chars.len() || encode_utf8(
            chars.take(fit_prefix(chars, budget).len() + 1int),
        ).len() >= budget,
    decreases chars.len(),
{
    lemma_fit_prefix_encoded_len(chars, budget);
    if chars.len() > 0 {
        let c0 = chars[0];
        let w = encode_scalar(c0 as u32).len() as int;
        let drop = chars.drop_first();
        if w >= budget {
            let t = chars.take(1);
            assert(t[0] == c0);
            assert(t.drop_first() =~= Seq::<char>::empty());
            assert(encode_utf8(t) == encode_scalar(c0 as u32) + encode_utf8(t.drop_first()));
            assert(chars.take(0) =~= Seq::<char>::empty());
        } else {
            lemma_fit_prefix_is_longest(drop, budget - w);
            let rest = fit_prefix(drop, budget - w);
            let m = rest.len() as int;
            assert(seq![c0] + drop.take(m) =~= chars.take(m + 1));
            if m < drop.len() {
                let t = chars.take(m + 2);
                assert(t[0] == c0);
                assert(t.drop_first() =~= drop.take(m + 1));
                assert(encode_utf8(t) == encode_scalar(c0 as u32) + encode_utf8(t.drop_first()));
            }
        }
    } else {
        assert(chars.take(0) =~= chars);
    }
}

/// The SSID on the wire is the longest prefix of the SSID that encodes to fewer than
/// `MAX_SSID_BYTESIZE` bytes of UTF-8.
pub proof fn lemma_wire_ssid_is_longest_fitting_prefix(ssid: Seq<char>)
    ensures
        wire_ssid(ssid) == ssid.take(wire_ssid(ssid).len() as int),
        encode_utf8(wire_ssid(ssid)).len() < MAX_SSID_BYTESIZE,
        wire_ssid(ssid).len() == ssid.len() || encode_utf8(
            ssid.take(wire_ssid(ssid).len() + 1int),
        ).len() >= MAX_SSID_BYTESIZE,
{
    lemma_fit_prefix_is_longest(ssid, MAX_SSID_BYTESIZE as int);
}

/// Deserializing the frame of an event gives back the event, except that its SSID is cut to
/// what fits on the wire.
pub proof fn lemma_serialize_deserialize(e: EventView)
    ensures
        can_deserialize(spec_serialize(e)),
        spec_deserialize(spec_serialize(e)) == on_the_wire(e),
{
    let buf = spec_serialize(e);
    match e {
        EventView::UploadSpeed { bytes_per_sec } | EventView::DownloadSpeed { bytes_per_sec } => {
            let be = u64_be_bytes(bytes_per_sec);
            assert(buf.len() == 32);
            assert(forall|k: int| 0 <= k < 8 ==> buf.skip(8)[k] == be[k]);
            assert(u64_from_be(buf.skip(8)) == u64_from_be(be));
            lemma_u64_be_roundtrip(bytes_per_sec);
        },
        EventView::SsidAndStrength { ssid, strength } => {
            let kept = wire_ssid(ssid);
            let bytes = encode_utf8(kept);
            lemma_fit_prefix_encoded_len(ssid, MAX_SSID_BYTESIZE as int);
            let n = bytes.len() as u32;
            let be = u32_be_bytes(n);
            assert(buf.len() == 32);
            assert(forall|k: int| 0 <= k < 4 ==> buf.skip(4)[k] == be[k]);
            assert(u32_from_be(buf.skip(4)) == u32_from_be(be));
            lemma_u32_be_roundtrip(n);
            assert(ssid_field(buf) =~= bytes);
            vstd::utf8::encode_utf8_valid_utf8(kept);
            vstd::utf8::encode_utf8_decode_utf8(kept);
        },
    }
}

/// An event whose SSID encodes to fewer than `MAX_SSID_BYTESIZE` bytes of UTF-8 comes back
/// unchanged from a trip through `serialize` and `deserialize`.
pub proof fn lemma_serialize_deserialize_exact(e: EventView)
    requires
        e matches EventView::SsidAndStrength { ssid, .. } ==> encode_utf8(ssid).len()
            < MAX_SSID_BYTESIZE,
    ensures
        spec_deserialize(spec_serialize(e)) == e,
{
    lemma_serialize_deserialize(e);
    if let EventView::SsidAndStrength { ssid, .. } = e {
        lemma_fit_prefix_keeps_short(ssid, MAX_SSID_BYTESIZE as int);
    }
}

impl Event {
    /// Length of a serialized event.
    pub const SERIALIZED_LENGTH: usize = SERIALIZED_LENGTH;

    /// Encodes the event into a fixed-size frame; an SSID is cut to its longest prefix that
    /// encodes to fewer than `MAX_SSID_BYTESIZE` bytes of UTF-8.
    pub fn serialize(&self) -> (out: [u8; 32])
        ensures
            out@ == spec_serialize(self@),
    {
        let mut out = [0u8; 32];
        assert(out@ =~= zeros(32));
        match self {
            Event::UploadSpeed { bytes_per_sec } => {
                out[0] = 1;
                write_u64_be(&mut out, 8, *bytes_per_sec);
                assert(out@ =~= speed_frame(1, *bytes_per_sec));
            },
            Event::DownloadSpeed { bytes_per_sec } => {
                out[0] = 2;
                write_u64_be(&mut out, 8, *bytes_per_sec);
                assert(out@ =~= speed_frame(2, *bytes_per_sec));
            },
            Event::SsidAndStrength { ssid, strength } => {
                out[0] = 3;
                out[1] = *strength;
                let ghost all = ssid@;
                let ghost budget = MAX_SSID_BYTESIZE as int;
                let mut written: usize = 0;
                let ghost mut i: int = 0;
                let mut chars = ssid.chars();
                assert(all.take(0) =~= Seq::<char>::empty());
                assert(all.skip(0) =~= all);
                assert(fit_prefix(all, budget) =~= all.take(0) + fit_prefix(all.skip(0), budget));
                loop
                    invariant_except_break
                        vstd::std_specs::iter::IteratorSpec::remaining(&chars) == all.skip(i),
                    invariant
                        all == ssid@,
                        budget == MAX_SSID_BYTESIZE,
                        0 <= i <= all.len(),
                        written == encode_utf8(all.take(i)).len(),
                        written < MAX_SSID_BYTESIZE,
                        out@.len() == 32,
                        out@[0] == 3,
                        out@[1] == *strength,
                        forall|j: int| 2 <= j < 8 ==> out@[j] == 0,
                        out@.subrange(8, 8 + written) == encode_utf8(all.take(i)),
                        forall|j: int| 8 + written <= j < 32 ==> out@[j] == 0,
                        fit_prefix(all, budget) == all.take(i) + fit_prefix(
                            all.skip(i),
                            budget - written,
                        ),
                    ensures
                        0 <= i <= all.len(),
                        written == encode_utf8(all.take(i)).len(),
                        written < MAX_SSID_BYTESIZE,
                        out@.len() == 32,
                        out@[0] == 3,
                        out@[1] == *strength,
                        forall|j: int| 2 <= j < 8 ==> out@[j] == 0,
                        out@.subrange(8, 8 + written) == encode_utf8(all.take(i)),
                        forall|j: int| 8 + written <= j < 32 ==> out@[j] == 0,
                        fit_prefix(all, budget) == all.take(i),
                    decreases all.len() - i,
                {
                    match chars.next() {
                        None => {
                            assert(all.skip(i).len() == 0);
                            assert(all.take(i) + fit_prefix(all.skip(i), budget - written)
                                =~= all.take(i));
                            break;
                        },
                        Some(c) => {
                            assert(all.skip(i)[0] == all[i]);
                            assert(c == all[i]);
                            let len = char_utf8_len(c);
                            if written + len >= MAX_SSID_BYTESIZE {
                                assert(all.take(i) + fit_prefix(all.skip(i), budget - written)
                                    =~= all.take(i));
                                break;
                            }
                            let bytes = char_utf8_bytes(c);
                            let ghost before = out@;
                            copy_bytes(&mut out, 8 + written, &bytes, len);
                            proof {
                                lemma_fit_prefix_step(all, i, budget - written);
                                assert(all.skip(i).drop_first() =~= all.skip(i + 1));
                                assert(out@.subrange(8, 8 + written + len) =~= before.subrange(
                                    8,
                                    8 + written,
                                ) + encode_scalar(c as u32));
                                i = i + 1;
                            }
                            written = written + len;
                        },
                    }
                }
                proof {
                    lemma_fit_prefix_encoded_len(all, budget);
                }
                write_u32_be(&mut out, 4, written as u32);
                assert(out@ =~= ssid_frame(all, *strength));
            },
        }
        out
    }

    /// Decodes a frame that `serialize` could have produced.
    pub fn deserialize(buf: [u8; 32]) -> (e: Event)
        requires
            can_deserialize(buf@),
        ensures
            e@ == spec_deserialize(buf@),
    {
        if buf[0] == 1 {
            Event::UploadSpeed { bytes_per_sec: read_u64_be(&buf, 8) }
        } else if buf[0] == 2 {
            Event::DownloadSpeed { bytes_per_sec: read_u64_be(&buf, 8) }
        } else {
            let len = read_u32_be(&buf, 4) as usize;
            let bytes = vstd::slice::slice_subrange(buf.as_slice(), 8, 8 + len);
            assert(bytes@ =~= ssid_field(buf@));
            let text = str_from_utf8(bytes).unwrap();
            proof {
                vstd::utf8::encode_utf8_decode_utf8(text@);
            }
            Event::SsidAndStrength { ssid: text.to_string(), strength: buf[1] }
        }
    }
}

} // verus!
