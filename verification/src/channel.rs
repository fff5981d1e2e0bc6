//! One conversation with the kernel over a routing netlink socket, without the
//! socket: the channel numbers each request, remembers which one is
//! outstanding, and picks the answer to it out of the datagrams it is shown.
use vstd::prelude::*;
use crate::error::WgError;
use crate::message::{
    encode_frame, error_code_at, frame, framed_at, header_at, link_index_at, read_error_code,
    read_header, read_link_index, MAX_BODY_LEN,
};
use crate::wire::{align4, HEADER_LEN, NLMSG_ERROR, NLM_F_ACK, NLM_F_REQUEST, RTM_NEWLINK};

verus! {

/// What the kernel said of a request that it did not reject.
#[derive(Debug, Clone, Copy, PartialEq, Eq)]
pub enum Reply {
    /// The request was carried out.
    Ack,
    /// The link asked for, by its index.
    Link { index: u32 },
}

/// Where a channel stands.
#[derive(Debug, Clone, Copy, PartialEq, Eq)]
pub enum ChannelState {
    /// Open, with no request outstanding.
    Idle,
    /// A request was sent and its answer has not been seen.
    Awaiting,
    /// The answer to the last request was seen.
    Matched,
    /// The wait for the answer to the last request was given up.
    TimedOut,
}

/// A channel: the sequence number of its last request, and its state.
#[derive(Debug, Clone, Copy, PartialEq, Eq)]
pub struct Channel {
    /// Sequence number of the request sent last; 0 before the first.
    pub seq: u32,
    /// Whether an answer is awaited.
    pub state: ChannelState,
}

/// The sequence number that follows `seq`. Zero is left to the kernel's own
/// unsolicited messages, so the number after the largest is 1.
pub open spec fn next_seq(seq: u32) -> u32 {
    if seq == u32::MAX {
        1
    } else {
        (seq + 1) as u32
    }
}

/// The flag word of a request: the caller's modifiers, the request bit, and
/// the acknowledgement bit where confirmation is wanted.
pub open spec fn request_flags(modifiers: u16, want_ack: bool) -> u16 {
    if want_ack {
        modifiers | NLM_F_REQUEST | NLM_F_ACK
    } else {
        modifiers | NLM_F_REQUEST
    }
}

/// The verdict that the messages of `buf` from `at` on give on the request
/// numbered `seq`, read in order:
/// - a message that carries another sequence number is passed over;
/// - an `NLMSG_ERROR` message for `seq` decides: code 0 acknowledges, any other
///   code is a rejection with that code;
/// - a link message for `seq` decides: it answers with the link's index;
/// - any other message for `seq` is passed over;
/// - bytes that do not frame a whole message, or a deciding message too short
///   for what it must hold, make the answer malformed.
/// `None` means that the buffer ends without a verdict.
pub open spec fn scan(buf: Seq<u8>, at: int, seq: u32) -> Option<Result<Reply, WgError>>
    decreases buf.len() + 3 - at,
{
    if at < 0 || at >= buf.len() {
        None
    } else if !framed_at(buf, at) {
        Some(Err(WgError::MalformedResponse))
    } else {
        let h = header_at(buf, at);
        if h.seq != seq {
            scan(buf, at + align4(h.len as int), seq)
        } else if h.kind == NLMSG_ERROR {
            if h.len < HEADER_LEN + 4 {
                Some(Err(WgError::MalformedResponse))
            } else if error_code_at(buf, at) == 0 {
                Some(Ok(Reply::Ack))
            } else {
                Some(Err(WgError::KernelRejected { code: error_code_at(buf, at) }))
            }
        } else if h.kind == RTM_NEWLINK {
            if h.len < HEADER_LEN + 8 {
                Some(Err(WgError::MalformedResponse))
            } else {
                Some(Ok(Reply::Link { index: link_index_at(buf, at) }))
            }
        } else {
            scan(buf, at + align4(h.len as int), seq)
        }
    }
}

/// Every message of `buf` from `at` on is whole and carries a sequence number
/// other than `seq`.
pub open spec fn all_unmatched(buf: Seq<u8>, at: int, seq: u32) -> bool
    decreases buf.len() + 3 - at,
{
    if at < 0 || at >= buf.len() {
        true
    } else {
        &&& framed_at(buf, at)
        &&& header_at(buf, at).seq != seq
        &&& all_unmatched(buf, at + align4(header_at(buf, at).len as int), seq)
    }
}

/// A datagram in which no message carries the awaited sequence number gives
/// no verdict, whatever its messages say.
pub proof fn lemma_unmatched_gives_no_verdict(buf: Seq<u8>, at: int, seq: u32)
    requires
        all_unmatched(buf, at, seq),
    ensures
        scan(buf, at, seq) is None,
    decreases buf.len() + 3 - at,
{
    if 0 <= at < buf.len() {
        lemma_unmatched_gives_no_verdict(buf, at + align4(header_at(buf, at).len as int), seq);
    }
}

/// Every request carries the request bit, and the acknowledgement bit
/// whenever confirmation is wanted, whatever its modifiers.
pub proof fn lemma_request_flags(modifiers: u16)
    ensures
        request_flags(modifiers, true) & NLM_F_ACK == NLM_F_ACK,
        request_flags(modifiers, true) & NLM_F_REQUEST == NLM_F_REQUEST,
        request_flags(modifiers, false) & NLM_F_REQUEST == NLM_F_REQUEST,
{
    assert((modifiers | 0x001u16 | 0x004u16) & 0x004u16 == 0x004u16) by (bit_vector);
    assert((modifiers | 0x001u16 | 0x004u16) & 0x001u16 == 0x001u16) by (bit_vector);
    assert((modifiers | 0x001u16) & 0x001u16 == 0x001u16) by (bit_vector);
}

/// Successive sequence numbers differ, and grow until the largest is reached.
pub proof fn lemma_next_seq(seq: u32)
    ensures
        next_seq(seq) != seq,
        next_seq(seq) != 0,
        seq < u32::MAX ==> next_seq(seq) > seq,
{
}

impl Channel {
    /// The channel after a request has been sent on it.
    pub open spec fn sent(self) -> Channel {
        Channel { seq: next_seq(self.seq), state: ChannelState::Awaiting }
    }

    /// The channel after `datagram` has been shown to it: while an answer is
    /// awaited, a verdict in the datagram ends the wait; otherwise nothing
    /// changes.
    pub open spec fn received(self, datagram: Seq<u8>) -> Channel {
        if self.state == ChannelState::Awaiting && scan(datagram, 0, self.seq) is Some {
            Channel { seq: self.seq, state: ChannelState::Matched }
        } else {
            self
        }
    }

    /// What `datagram` tells the channel: the verdict on the outstanding
    /// request, if one is awaited and the datagram holds it.
    pub open spec fn verdict(self, datagram: Seq<u8>) -> Option<Result<Reply, WgError>> {
        if self.state == ChannelState::Awaiting {
            scan(datagram, 0, self.seq)
        } else {
            None
        }
    }

    /// The channel after its wait has run out.
    pub open spec fn expired(self) -> Channel {
        if self.state == ChannelState::Awaiting {
            Channel { seq: self.seq, state: ChannelState::TimedOut }
        } else {
            self
        }
    }

    /// Opens a channel: nothing sent, nothing awaited.
    pub fn open() -> (c: Channel)
        ensures
            c == (Channel { seq: 0, state: ChannelState::Idle }),
    {
        Channel { seq: 0, state: ChannelState::Idle }
    }

    /// Frames a request with the channel's next sequence number and marks it
    /// outstanding. The bytes returned are what goes on the socket. A request
    /// that was still outstanding is given up: answers to it will no longer
    /// match.
    pub fn send_request(&mut self, kind: u16, modifiers: u16, body: &[u8], want_ack: bool) -> (out:
        Vec<u8>)
        requires
            body@.len() <= MAX_BODY_LEN,
        ensures
            *final(self) == old(self).sent(),
            out@ == frame(kind, request_flags(modifiers, want_ack), final(self).seq, body@),
    {
        let seq: u32 = if self.seq == u32::MAX {
            1
        } else {
            self.seq + 1
        };
        let flags: u16 = if want_ack {
            modifiers | NLM_F_REQUEST | NLM_F_ACK
        } else {
            modifiers | NLM_F_REQUEST
        };
        self.seq = seq;
        self.state = ChannelState::Awaiting;
        encode_frame(kind, flags, seq, body)
    }

    /// Shows the channel a datagram that arrived. While an answer is awaited,
    /// the result is the verdict on the outstanding request if the datagram
    /// holds it, and the wait is then over; messages for other sequence
    /// numbers are ignored and leave the channel waiting.
    pub fn receive(&mut self, datagram: &[u8]) -> (r: Option<Result<Reply, WgError>>)
        ensures
            r == old(self).verdict(datagram@),
            *final(self) == old(self).received(datagram@),
    {
        match self.state {
            ChannelState::Awaiting => {},
            _ => {
                return None;
            },
        }
        let r = scan_datagram(datagram, self.seq);
        if r.is_some() {
            self.state = ChannelState::Matched;
        }
        r
    }

    /// Tells the channel that the bounded wait for an answer has run out.
    /// If an answer was awaited, the wait ends with `MalformedResponse`.
    pub fn timeout(&mut self) -> (r: Option<WgError>)
        ensures
            *final(self) == old(self).expired(),
            r == if old(self).state == ChannelState::Awaiting {
                Some(WgError::MalformedResponse)
            } else {
                None::<WgError>
            },
    {
        match self.state {
            ChannelState::Awaiting => {
                self.state = ChannelState::TimedOut;
                Some(WgError::MalformedResponse)
            },
            _ => None,
        }
    }
}

/// Reads the messages of a datagram in order and returns the verdict on the
/// request numbered `seq`, if the datagram holds one.
pub fn scan_datagram(datagram: &[u8], seq: u32) -> (r: Option<Result<Reply, WgError>>)
    ensures
        r == scan(datagram@, 0, seq),
{
    let mut at: usize = 0;
    while at < datagram.len()
        invariant
            at <= datagram@.len(),
            scan(datagram@, at as int, seq) == scan(datagram@, 0, seq),
        decreases datagram@.len() - at,
    {
        let header = read_header(datagram, at);
        match header {
            None => {
                return Some(Err(WgError::MalformedResponse));
            },
            Some(h) => {
                if h.seq == seq && h.kind == NLMSG_ERROR {
                    if h.len < 20 {
                        return Some(Err(WgError::MalformedResponse));
                    }
                    let code: i32 = read_error_code(datagram, at);
                    if code == 0 {
                        return Some(Ok(Reply::Ack));
                    }
                    return Some(Err(WgError::KernelRejected { code }));
                }
                if h.seq == seq && h.kind == RTM_NEWLINK {
                    if h.len < 24 {
                        return Some(Err(WgError::MalformedResponse));
                    }
                    let index: u32 = read_link_index(datagram, at);
                    return Some(Ok(Reply::Link { index }));
                }
                let left: usize = datagram.len() - at;
                let len: usize = h.len as usize;
                let odd: usize = len % 4;
                let padding: usize = if odd == 0 {
                    0
                } else {
                    4 - odd
                };
                let ghost next = at + align4(h.len as int);
                assert(next == at + len + padding);
                assert(scan(datagram@, at as int, seq) == scan(datagram@, next, seq));
                if left - len < padding {
                    assert(scan(datagram@, next, seq) is None);
                    at = datagram.len();
                    assert(scan(datagram@, at as int, seq) is None);
                } else {
                    at = at + len + padding;
                }
            },
        }
    }
    None
}

} // verus!
