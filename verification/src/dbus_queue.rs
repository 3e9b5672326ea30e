use crate::wire::u32_le_bytes;
use mini_sansio_dbus::{DBusSerial, EncodeError};
use std::collections::VecDeque;
use vstd::prelude::*;

verus! {

#[verifier::external_type_specification]
#[verifier::external_body]
pub struct ExEncodeError(mini_sansio_dbus::EncodeError);

/// `DBusSerial::write_to_message`: writes `serial` little-endian into bytes 8..12 (the serial
/// field of the D-Bus header); it fails, leaving the message as it was, when the message is
/// shorter than 12 bytes.
#[verifier::external_body]
fn write_serial(message: &mut Vec<u8>, serial: u32) -> (r: Result<(), EncodeError>)
    ensures
        r is Ok <==> old(message)@.len() >= 12,
        r is Ok ==> final(message)@ == old(message)@.take(8) + u32_le_bytes(serial) + old(
            message,
        )@.skip(12),
        r is Err ==> final(message)@ == old(message)@,
{
    DBusSerial::write_to_message(message.as_mut_slice(), serial)
}

/// The D-Bus serial that follows `s`: serials count up from 1 and come back to 1 after the
/// largest `u32`, so that none is ever 0.
pub open spec fn serial_after(s: u32) -> u32 {
    if s == u32::MAX {
        1
    } else {
        (s + 1) as u32
    }
}

/// A message with `serial` written into its header.
pub open spec fn with_serial(message: Seq<u8>, serial: u32) -> Seq<u8> {
    message.take(8) + u32_le_bytes(serial) + message.skip(12)
}

/// The queue after pushing `message`: the message goes last with the next serial written into
/// it (a message too short to hold a header is left out), and the serial advances.
pub open spec fn queue_push(q: DBusQueueView, message: Seq<u8>) -> DBusQueueView {
    DBusQueueView {
        next_serial: serial_after(q.next_serial),
        messages: if message.len() >= 12 {
            q.messages.push(with_serial(message, q.next_serial))
        } else {
            q.messages
        },
    }
}

/// The encoded messages that wait to be written to the bus, oldest first, and the serial that
/// the next one gets.
pub struct DBusQueue {
    next_serial: u32,
    messages: VecDeque<Vec<u8>>,
}

/// The mathematical value of a [`DBusQueue`].
pub struct DBusQueueView {
    pub next_serial: u32,
    pub messages: Seq<Seq<u8>>,
}

impl View for DBusQueue {
    type V = DBusQueueView;

    closed spec fn view(&self) -> DBusQueueView {
        DBusQueueView {
            next_serial: self.next_serial,
            messages: self.messages@.map_values(|m: Vec<u8>| m@),
        }
    }
}

impl DBusQueue {
    /// An empty queue whose first message gets serial 1.
    pub fn new() -> (q: Self)
        ensures
            q@.next_serial == 1,
            q@.messages == Seq::<Seq<u8>>::empty(),
    {
        let q = Self { next_serial: 1, messages: VecDeque::new() };
        assert(q@.messages =~= Seq::<Seq<u8>>::empty());
        q
    }

    /// Queues a copy of `message` with the next serial written into its header, and returns
    /// that serial. A message too short to hold a header is not queued, though its serial is
    /// used up.
    pub fn push_raw(&mut self, message: &[u8]) -> (serial: u32)
        ensures
            serial == old(self)@.next_serial,
            final(self)@ == queue_push(old(self)@, message@),
    {
        let serial = self.next_serial;
        self.next_serial = if serial == u32::MAX {
            1
        } else {
            serial + 1
        };
        let mut copy = vstd::slice::slice_to_vec(message);
        match write_serial(&mut copy, serial) {
            Ok(()) => {
                self.messages.push_back(copy);
                assert(self@.messages =~= old(self)@.messages.push(with_serial(message@, serial)));
            },
            Err(_) => {
                assert(self@.messages =~= old(self)@.messages);
            },
        }
        serial
    }

    /// The oldest queued message.
    pub fn peek(&self) -> (m: Option<&[u8]>)
        ensures
            m is None <==> self@.messages.len() == 0,
            m matches Some(b) ==> b@ == self@.messages[0],
    {
        if self.messages.len() == 0 {
            None
        } else {
            Some(self.messages[0].as_slice())
        }
    }

    /// Removes the oldest queued message, if there is one.
    pub fn pop(&mut self)
        ensures
            final(self)@.next_serial == old(self)@.next_serial,
            final(self)@.messages == if old(self)@.messages.len() == 0 {
                old(self)@.messages
            } else {
                old(self)@.messages.drop_first()
            },
    {
        let _ = self.messages.pop_front();
        assert(self@.messages =~= if old(self)@.messages.len() == 0 {
            old(self)@.messages
        } else {
            old(self)@.messages.drop_first()
        });
    }
}


/// Messages leave the queue in the order they were pushed, each with the serial it was given,
/// and consecutive pushes get consecutive serials.
pub proof fn lemma_queue_is_fifo(q: DBusQueueView, a: Seq<u8>, b: Seq<u8>)
    requires
        a.len() >= 12,
        b.len() >= 12,
    ensures
        queue_push(queue_push(q, a), b).messages == q.messages.push(
            with_serial(a, q.next_serial),
        ).push(with_serial(b, serial_after(q.next_serial))),
        queue_push(queue_push(q, a), b).next_serial == serial_after(serial_after(q.next_serial)),
        serial_after(q.next_serial) != 0,
{
}


/// Serials count up by one through the whole `u32` range, and only the largest one is followed
/// by 1; no serial is 0.
pub proof fn lemma_serials_count_up(s: u32)
    ensures
        s < u32::MAX ==> serial_after(s) == s + 1,
        s == u32::MAX ==> serial_after(s) == 1,
        serial_after(s) != 0,
{
}

/// Pushing a message to a queue gives it the queue's next serial and the following push gets
/// that serial plus one (below the largest serial), so consecutive messages never share a serial.
pub proof fn lemma_consecutive_pushes_get_distinct_serials(q: DBusQueueView, a: Seq<u8>)
    requires
        q.next_serial < u32::MAX,
    ensures
        queue_push(q, a).next_serial == q.next_serial + 1,
        queue_push(q, a).next_serial != q.next_serial,
{
}


/// A queued message keeps its length and every byte outside 8..12, and bytes 8..12 read back,
/// little-endian, as its serial.
pub proof fn lemma_with_serial_reads_back(message: Seq<u8>, serial: u32)
    requires
        message.len() >= 12,
    ensures
        with_serial(message, serial).len() == message.len(),
        forall|k: int|
            0 <= k < message.len() && !(8 <= k < 12) ==> #[trigger] with_serial(message, serial)[k]
                == message[k],
        ({
            let m = with_serial(message, serial);
            (m[8] as u32) | (m[9] as u32) << 8 | (m[10] as u32) << 16 | (m[11] as u32) << 24
                == serial
        }),
{
    let m = with_serial(message, serial);
    assert forall|k: int| 0 <= k < message.len() && !(8 <= k < 12) implies #[trigger] m[k]
        == message[k] by {
        if k >= 12 {
            assert(m[k] == message.skip(12)[k - 12]);
        }
    }
    let (b0, b1, b2, b3) = (m[8], m[9], m[10], m[11]);
    assert(b0 == serial as u8 && b1 == (serial >> 8) as u8 && b2 == (serial >> 16) as u8 && b3
        == (serial >> 24) as u8);
    assert((b0 as u32) | (b1 as u32) << 8 | (b2 as u32) << 16 | (b3 as u32) << 24 == serial)
        by (bit_vector)
        requires
            b0 == serial as u8,
            b1 == (serial >> 8) as u8,
            b2 == (serial >> 16) as u8,
            b3 == (serial >> 24) as u8,
    ;
}

} // verus!
