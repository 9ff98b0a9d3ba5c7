//! A cursor over a datagram that holds several messages back to back.
use crate::message::spec_message;
use crate::message::spec_message_error;
use crate::message::spec_raw_message;
use crate::message::NetlinkMessageResponse;
use crate::message::NetlinkMessageResponseDeserializeError;
use crate::message::RawNetlinkMessage;
use crate::payload::Modeled;
use crate::payload::NetlinkPayloadResponse;
use crate::utils::spec_align4;
use core::marker::PhantomData;
use vstd::prelude::*;
use vstd::slice::slice_subrange;

verus! {

/// Where a message cursor stands: the buffer, the offset of the next
/// message, and whether a read has failed.
pub struct IterState {
    pub buf: Seq<u8>,
    pub offset: int,
    pub failed: bool,
}

/// The message at the front of `rest` and how far the cursor moves past it:
/// its 4-aligned length, or the rest of the buffer when that is shorter.
pub open spec fn spec_next_message<T: NetlinkPayloadResponse>(rest: Seq<u8>) -> Option<
    (NetlinkMessageResponse<T::Model>, int),
> {
    match spec_message::<T>(rest) {
        None => None,
        Some(m) => {
            let aligned = spec_align4(spec_raw_message(rest).unwrap().header.len as int);
            Some((m, if aligned < rest.len() { aligned } else { rest.len() as int }))
        },
    }
}

/// One step of the cursor: the next state, and what is yielded — `None`
/// once the cursor is exhausted or has failed, `Some(None)` for a read that
/// failed, `Some(Some(m))` for a message.
pub open spec fn spec_iter_step<T: NetlinkPayloadResponse>(s: IterState) -> (
    IterState,
    Option<Option<NetlinkMessageResponse<T::Model>>>,
) {
    if s.failed || s.offset >= s.buf.len() {
        (s, None)
    } else {
        match spec_next_message::<T>(s.buf.skip(s.offset)) {
            Some((m, consumed)) => (IterState { offset: s.offset + consumed, ..s }, Some(Some(m))),
            None => (IterState { failed: true, ..s }, Some(None)),
        }
    }
}

/// The state of a fresh cursor over `buf`.
pub open spec fn spec_iter_start(buf: Seq<u8>) -> IterState {
    IterState { buf, offset: 0, failed: false }
}

/// Reads messages from an owned buffer one at a time. It cannot be
/// restarted, and after a failed read it yields nothing more. Consumed
/// messages are not released until the whole cursor is dropped.
pub struct MessageIterator<T> {
    buf: Vec<u8>,
    offset: usize,
    did_last_read_error: bool,
    marker: PhantomData<T>,
}

impl<T: NetlinkPayloadResponse> MessageIterator<T> {
    pub closed spec fn spec_state(&self) -> IterState {
        IterState {
            buf: self.buf@,
            offset: self.offset as int,
            failed: self.did_last_read_error,
        }
    }

    pub closed spec fn wf(&self) -> bool {
        self.offset <= self.buf@.len()
    }

    /// Reads the next message, as `spec_iter_step` describes.
    pub fn next(&mut self) -> (r: Option<
        Result<NetlinkMessageResponse<T>, NetlinkMessageResponseDeserializeError<T::Error>>,
    >)
        requires
            old(self).wf(),
        ensures
            final(self).wf(),
            final(self).spec_state() == spec_iter_step::<T>(old(self).spec_state()).0,
            match spec_iter_step::<T>(old(self).spec_state()).1 {
                None => r is None,
                Some(None) => r matches Some(Err(e)) && spec_message_error::<T>(
                    old(self).spec_state().buf.skip(old(self).spec_state().offset),
                    e,
                ),
                Some(Some(m)) => r matches Some(Ok(x)) && x.model() == m,
            },
    {
        if self.did_last_read_error || self.offset >= self.buf.len() {
            return None;
        }
        let rest = slice_subrange(self.buf.as_slice(), self.offset, self.buf.len());
        assert(rest@ =~= self.buf@.skip(self.offset as int));
        let raw = match RawNetlinkMessage::try_from(rest) {
            Ok(raw) => raw,
            Err(e) => {
                self.did_last_read_error = true;
                return Some(Err(NetlinkMessageResponseDeserializeError::RawReadError(e)));
            },
        };
        let aligned: u64 = (raw.header.len as u64 + 3) / 4 * 4;
        let consumed: usize = if aligned < rest.len() as u64 {
            aligned as usize
        } else {
            rest.len()
        };
        match NetlinkMessageResponse::try_from(raw) {
            Ok(message) => {
                self.offset = self.offset + consumed;
                Some(Ok(message))
            },
            Err(e) => {
                self.did_last_read_error = true;
                Some(Err(e))
            },
        }
    }
}

/// Takes a datagram and returns a cursor over the messages in it.
pub fn create_message_iterator<T: NetlinkPayloadResponse>(buf: Vec<u8>) -> (r: MessageIterator<T>)
    ensures
        r.wf(),
        r.spec_state() == spec_iter_start(buf@),
{
    MessageIterator { buf, offset: 0, did_last_read_error: false, marker: PhantomData }
}

/// When the first message of a buffer reads and the one after it does not,
/// the cursor yields one message, then one failure, then nothing, however
/// many bytes remain.
pub proof fn lemma_fail_fast<T: NetlinkPayloadResponse>(buf: Seq<u8>)
    requires
        spec_next_message::<T>(buf) is Some,
        spec_next_message::<T>(buf).unwrap().1 < buf.len(),
        spec_next_message::<T>(buf.skip(spec_next_message::<T>(buf).unwrap().1)) is None,
    ensures
        ({
            let (s1, y1) = spec_iter_step::<T>(spec_iter_start(buf));
            let (s2, y2) = spec_iter_step::<T>(s1);
            let (s3, y3) = spec_iter_step::<T>(s2);
            &&& y1 == Some(Some(spec_next_message::<T>(buf).unwrap().0))
            &&& y2 == Some(None::<NetlinkMessageResponse<T::Model>>)
            &&& y3 is None
            &&& s3 == s2
        }),
{
    assert(buf.skip(0) =~= buf);
}

} // verus!
