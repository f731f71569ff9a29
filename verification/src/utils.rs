//! The channel to the encryption service, and the mail that is queued for delivery.
//!
//! The service speaks in frames: one byte of code, four bytes of length in network
//! order, then the payload. The library writes the frame of a request and reads the
//! head of an answer; sending and receiving is the caller's part, one step at a time.

use vstd::prelude::*;
use byteorder::ByteOrder;
use crate::error::Error;

verus! {

/// The status of an answer that succeeded.
pub const CODE_OK: u8 = 0;

/// The code of a request to encrypt.
pub const HEAD_AES_ENCRYPT: u8 = 146;

/// The code of a request to decrypt.
pub const HEAD_AES_DECRYPT: u8 = 1;

/// How many connections the pool keeps to each server.
pub const POOL_PER_CLIENT: usize = 20;

/// How many bytes the head of a frame has.
pub const HEAD_LEN: usize = 5;

/// The four bytes of `n` in network order: the most significant first.
pub open spec fn network_bytes(n: u32) -> Seq<u8> {
    seq![
        (n / 0x100_0000) as u8,
        ((n / 0x1_0000) % 0x100) as u8,
        ((n / 0x100) % 0x100) as u8,
        (n % 0x100) as u8,
    ]
}

/// The number that the first four of the bytes write in network order.
pub open spec fn network_value(bytes: Seq<u8>) -> int {
    bytes[0] * 0x100_0000 + bytes[1] * 0x1_0000 + bytes[2] * 0x100 + bytes[3]
}

/// The frame of a request.
pub open spec fn request_frame(code: u8, message: Seq<u8>) -> Seq<u8> {
    seq![code] + network_bytes(message.len() as u32) + message
}

/// `ByteOrder::write_u32` of byteorder, for its `NetworkEndian`: the four bytes of
/// the number, the most significant first.
#[verifier::external_body]
pub(crate) fn write_u32(n: u32) -> (bytes: Vec<u8>)
    ensures
        bytes@ == network_bytes(n),
{
    let mut bytes = vec![0u8; 4];
    byteorder::NetworkEndian::write_u32(&mut bytes, n);
    bytes
}

/// `ByteOrder::read_u32` of byteorder, for its `NetworkEndian`: the number that the
/// first four bytes write, the most significant first. It panics on fewer bytes.
#[verifier::external_body]
pub(crate) fn read_u32(bytes: &[u8]) -> (n: u32)
    requires
        bytes@.len() >= 4,
    ensures
        n == network_value(bytes@),
{
    byteorder::NetworkEndian::read_u32(bytes)
}

/// What the caller does next in an exchange with the service.
#[derive(Debug)]
pub enum Exchange {
    /// Write the frame to a connection of the pool, flush, and read the five bytes of
    /// the head of the answer.
    Send(Vec<u8>),
    /// Read that many bytes of payload from the same connection: they are the result.
    Receive(usize),
    /// The exchange is over, with this result.
    Finished(Result<Vec<u8>, Error>),
}

/// The next step of an exchange, its bytes taken as a sequence.
pub enum ExchangeView {
    Send(Seq<u8>),
    Receive(usize),
    Finished(Result<Seq<u8>, Error>),
}

impl View for Exchange {
    type V = ExchangeView;

    open spec fn view(&self) -> ExchangeView {
        match *self {
            Exchange::Send(frame) => ExchangeView::Send(frame@),
            Exchange::Receive(len) => ExchangeView::Receive(len),
            Exchange::Finished(Ok(bytes)) => ExchangeView::Finished(Ok(bytes@)),
            Exchange::Finished(Err(e)) => ExchangeView::Finished(Err(e)),
        }
    }
}

/// How a request begins: an empty message is its own result and nothing is sent; a
/// message too long for the four bytes of length is refused; any other is framed.
pub open spec fn request_start(code: u8, message: Seq<u8>) -> ExchangeView {
    if message.len() == 0 {
        ExchangeView::Finished(Ok(Seq::empty()))
    } else if message.len() > u32::MAX {
        ExchangeView::Finished(Err(Error::RequestError))
    } else {
        ExchangeView::Send(request_frame(code, message))
    }
}

/// What the head of an answer asks for: the payload of the stated length where the
/// status is that of success, and the end of the exchange with `RequestError` on any
/// other status.
pub open spec fn answer_head(head: Seq<u8>) -> ExchangeView {
    if head[0] == CODE_OK {
        ExchangeView::Receive(network_value(head.skip(1)) as usize)
    } else {
        ExchangeView::Finished(Err(Error::RequestError))
    }
}

/// How an exchange ends once the payload was received: with the payload where it has
/// the length that the head stated, with `IO` where it has not.
pub open spec fn answer_payload(expected: usize, payload: Seq<u8>) -> ExchangeView {
    if payload.len() == expected {
        ExchangeView::Finished(Ok(payload))
    } else {
        ExchangeView::Finished(Err(Error::IO))
    }
}

/// The pool of connections to the encryption servers: which of them are in use.
pub struct EncryptionClient {
    busy: Vec<bool>,
}

impl EncryptionClient {
    /// How many connections the pool has.
    pub closed spec fn size(&self) -> nat {
        self.busy@.len()
    }

    /// Whether the connection at `slot` is in use.
    pub closed spec fn in_use(&self, slot: int) -> bool {
        self.busy@[slot]
    }

    /// A pool of `POOL_PER_CLIENT` connections to each of `servers` servers, none in
    /// use. Nothing where the pool would be too large to count.
    pub fn new(servers: usize) -> (pool: Option<EncryptionClient>)
        ensures
            match pool {
                Some(p) => p.size() == servers * POOL_PER_CLIENT && forall|i: int|
                    0 <= i < p.size() ==> !p.in_use(i),
                None => servers * POOL_PER_CLIENT > usize::MAX,
            },
    {
        if servers > usize::MAX / POOL_PER_CLIENT {
            return None;
        }
        let total = servers * POOL_PER_CLIENT;
        let mut busy: Vec<bool> = Vec::new();
        let mut i: usize = 0;
        while i < total
            invariant
                0 <= i <= total,
                busy@.len() == i,
                forall|j: int| 0 <= j < i ==> !busy@[j],
            decreases total - i,
        {
            busy.push(false);
            i += 1;
        }
        Some(EncryptionClient { busy })
    }

    /// The number of connections of the pool.
    pub fn len(&self) -> (n: usize)
        ensures
            n == self.size(),
    {
        self.busy.len()
    }

    /// The server that the connection at `slot` leads to: the connections of one
    /// server stand together, in the order of the servers.
    pub fn server_of(slot: usize) -> (server: usize)
        ensures
            server == slot / POOL_PER_CLIENT,
    {
        slot / POOL_PER_CLIENT
    }

    /// Takes the first connection that is not in use, probing from the start of the
    /// pool. Nothing where every connection is in use: the caller probes again.
    pub fn acquire(&mut self) -> (slot: Option<usize>)
        ensures
            final(self).size() == old(self).size(),
            match slot {
                Some(s) => {
                    &&& s < old(self).size()
                    &&& !old(self).in_use(s as int)
                    &&& final(self).in_use(s as int)
                    &&& forall|i: int| 0 <= i < s ==> old(self).in_use(i)
                    &&& forall|i: int|
                        0 <= i < old(self).size() && i != s ==> final(self).in_use(i) == old(self).in_use(i)
                },
                None => {
                    &&& forall|i: int| 0 <= i < old(self).size() ==> old(self).in_use(i)
                    &&& forall|i: int|
                        0 <= i < old(self).size() ==> final(self).in_use(i) == old(self).in_use(i)
                },
            },
    {
        let mut i: usize = 0;
        while i < self.busy.len()
            invariant
                0 <= i <= self.busy.len(),
                self.busy@ == old(self).busy@,
                forall|j: int| 0 <= j < i ==> self.busy@[j],
            decreases self.busy.len() - i,
        {
            if !self.busy[i] {
                self.busy.set(i, true);
                return Some(i);
            }
            i += 1;
        }
        None
    }

    /// Gives the connection at `slot` back to the pool.
    pub fn release(&mut self, slot: usize)
        ensures
            final(self).size() == old(self).size(),
            forall|i: int|
                0 <= i < old(self).size() ==> final(self).in_use(i) == (i != slot && old(self).in_use(i)),
    {
        if slot < self.busy.len() {
            self.busy.set(slot, false);
        }
    }

    /// Begins a request with the given code.
    pub fn send_request(code: u8, message: &[u8]) -> (next: Exchange)
        ensures
            next@ == request_start(code, message@),
    {
        if message.len() == 0 {
            let empty: Vec<u8> = Vec::new();
            return Exchange::Finished(Ok(empty));
        }
        if message.len() > 0xffff_ffff {
            return Exchange::Finished(Err(Error::RequestError));
        }
        let mut frame: Vec<u8> = Vec::new();
        frame.push(code);
        let mut length = write_u32(message.len() as u32);
        frame.append(&mut length);
        frame.extend_from_slice(message);
        assert(frame@ =~= request_frame(code, message@));
        Exchange::Send(frame)
    }

    /// Begins the encryption of `message`.
    pub fn aes_encrypt(message: &[u8]) -> (next: Exchange)
        ensures
            next@ == request_start(HEAD_AES_ENCRYPT, message@),
    {
        EncryptionClient::send_request(HEAD_AES_ENCRYPT, message)
    }

    /// Begins the decryption of `message`.
    pub fn aes_decrypt(message: &[u8]) -> (next: Exchange)
        ensures
            next@ == request_start(HEAD_AES_DECRYPT, message@),
    {
        EncryptionClient::send_request(HEAD_AES_DECRYPT, message)
    }

    /// Reads the head of an answer.
    pub fn read_head(head: &[u8; 5]) -> (next: Exchange)
        ensures
            next@ == answer_head(head@),
    {
        if head[0] != CODE_OK {
            return Exchange::Finished(Err(Error::RequestError));
        }
        let tail = tail_of(head);
        let size = read_u32(tail.as_slice());
        Exchange::Receive(size as usize)
    }

    /// Ends an exchange with the payload that was received after the head asked for
    /// `expected` bytes: the payload is the result where it has exactly that many
    /// bytes, and the exchange has failed where it has not.
    pub fn finish(expected: usize, payload: Vec<u8>) -> (next: Exchange)
        ensures
            next@ == answer_payload(expected, payload@),
    {
        if payload.len() == expected {
            Exchange::Finished(Ok(payload))
        } else {
            Exchange::Finished(Err(Error::IO))
        }
    }

    /// Ends an exchange on which writing or reading failed.
    pub fn fail() -> (next: Exchange)
        ensures
            next@ == ExchangeView::Finished(Err(Error::IO)),
    {
        Exchange::Finished(Err(Error::IO))
    }
}

/// The four bytes that follow the first of a head.
pub fn tail_of(head: &[u8; 5]) -> (tail: Vec<u8>)
    ensures
        tail@ == head@.skip(1),
{
    let mut tail: Vec<u8> = Vec::new();
    tail.push(head[1]);
    tail.push(head[2]);
    tail.push(head[3]);
    tail.push(head[4]);
    assert(tail@ =~= head@.skip(1));
    tail
}

/// Which one-time key a mail carries.
#[derive(Clone, Copy, Debug, PartialEq, Eq, Structural)]
pub enum EmailType {
    /// The key that confirms an email address.
    Email,
    /// The key that resets a password.
    Password,
}

/// A mail that waits to be sent.
#[derive(Debug)]
pub struct EmailStruct {
    /// Where the mail goes.
    pub email: String,
    /// The one-time key that it carries.
    pub email_key: String,
    /// Which key that is.
    pub email_type: EmailType,
}

} // verus!
