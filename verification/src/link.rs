//! Unicast transport links: configuration, batch readers and writers, acknowledgement of an open.
//!
//! A reader or writer here decides; it performs no input or output. What it wants done to the
//! socket it returns as a step, and what came of it is handed back as an event.

use vstd::prelude::*;
use vstd::string::*;

use crate::link_rx::TransportLinkUnicastRx;
use crate::rx_carry::RxCarry;

verus! {

/// Whether the remote or the local side opened the link.
#[derive(Clone, Copy, PartialEq, Eq, Structural, Debug)]
pub enum TransportLinkUnicastDirection {
    Inbound,
    Outbound,
}

/// Reliability that a link offers.
#[derive(Clone, Copy, PartialEq, Eq, Structural, Debug)]
pub enum Reliability {
    BestEffort,
    Reliable,
}

/// Priorities that a link carries, from the first to the last included.
#[derive(Clone, Copy, PartialEq, Eq, Structural, Debug)]
pub struct PriorityRange {
    pub start: u8,
    pub end: u8,
}

/// How batches travel on a link.
#[derive(Clone, Copy, PartialEq, Eq, Structural, Debug)]
pub struct BatchConfig {
    pub mtu: u16,
    pub is_streamed: bool,
    pub is_compression: bool,
}

/// Configuration of a unicast link.
#[derive(Clone, Copy, PartialEq, Eq, Structural, Debug)]
pub struct TransportLinkUnicastConfig {
    pub direction: TransportLinkUnicastDirection,
    pub batch: BatchConfig,
    pub priorities: Option<PriorityRange>,
    pub reliability: Option<Reliability>,
}

/// What a unicast link says of itself.
#[derive(Debug)]
pub struct LinkUnicast {
    pub mtu: u16,
    pub is_streamed: bool,
    pub src: String,
    pub dst: String,
}

impl Clone for LinkUnicast {
    fn clone(&self) -> (link: Self)
        ensures
            link == *self,
    {
        LinkUnicast {
            mtu: self.mtu,
            is_streamed: self.is_streamed,
            src: self.src.clone(),
            dst: self.dst.clone(),
        }
    }
}

/// A link as reported to the rest of the system.
#[derive(Debug)]
pub struct Link {
    pub src: String,
    pub dst: String,
    pub mtu: u16,
    pub is_streamed: bool,
    pub priorities: Option<PriorityRange>,
    pub reliability: Option<Reliability>,
}

/// Failures of a unicast link.
#[derive(Clone, Copy, PartialEq, Eq, Structural, Debug)]
pub enum LinkError {
    /// A message or a batch could not be encoded or finalized.
    Write,
    /// A batch was finalized into a buffer that does not exist.
    InvalidBufferFinalization,
    /// The stream ended.
    ConnectionClosed,
    /// The announced batch does not fit the receive buffer.
    InvalidBatchLength,
    /// The read claims more bytes than the receive buffer has.
    OutOfBounds,
    /// The received batch does not decode.
    Decode,
}

/// The text of a failure on the link displayed as `link`.
pub open spec fn error_text(error: LinkError, link: Seq<char>) -> Seq<char> {
    match error {
        LinkError::Write => "Write error on link: "@ + link,
        LinkError::InvalidBufferFinalization => "Invalid buffer finalization"@,
        LinkError::ConnectionClosed => "Read error from link: "@ + link + ". Connection closed."@,
        LinkError::InvalidBatchLength => "Read error from link: "@ + link
            + ". Invalid batch length or buffer size."@,
        LinkError::OutOfBounds => "Read error from link: "@ + link
            + ". ZSlice index(es) out of bounds"@,
        LinkError::Decode => "Decode error on link: "@ + link,
    }
}

impl LinkError {
    /// The text of this failure on the link displayed as `link`.
    pub fn message(&self, link: &str) -> (text: String)
        ensures
            text@ == error_text(*self, link@),
    {
        match self {
            LinkError::Write => "Write error on link: ".to_owned().concat(link),
            LinkError::InvalidBufferFinalization => "Invalid buffer finalization".to_owned(),
            LinkError::ConnectionClosed => "Read error from link: ".to_owned().concat(link).concat(
                ". Connection closed.",
            ),
            LinkError::InvalidBatchLength => "Read error from link: ".to_owned().concat(
                link,
            ).concat(". Invalid batch length or buffer size."),
            LinkError::OutOfBounds => "Read error from link: ".to_owned().concat(link).concat(
                ". ZSlice index(es) out of bounds",
            ),
            LinkError::Decode => "Decode error on link: ".to_owned().concat(link),
        }
    }
}

/// A unicast link under a transport configuration.
#[derive(Debug)]
pub struct TransportLinkUnicast {
    pub link: LinkUnicast,
    pub config: TransportLinkUnicastConfig,
}

/// The configuration that a link settles on: its own mtu caps the configured one.
pub open spec fn settled(
    link: LinkUnicast,
    config: TransportLinkUnicastConfig,
) -> TransportLinkUnicastConfig {
    TransportLinkUnicastConfig {
        batch: BatchConfig {
            mtu: if link.mtu <= config.batch.mtu {
                link.mtu
            } else {
                config.batch.mtu
            },
            ..config.batch
        },
        ..config
    }
}

/// Capacity that the compressor asks for, for an input of `len` bytes.
pub open spec fn compressed_capacity(len: nat) -> nat {
    20 + len * 110 / 100
}

/// Calls `lz4_flex::block::get_maximum_output_size`, which computes twenty bytes more than eleven
/// tenths of the input length, rounded down.
#[verifier::external_body]
fn get_maximum_output_size(input_len: usize) -> (size: usize)
    requires
        20 + input_len * 110 <= usize::MAX,
    ensures
        size == compressed_capacity(input_len as nat),
{
    lz4_flex::block::get_maximum_output_size(input_len)
}

impl Clone for TransportLinkUnicast {
    fn clone(&self) -> (link: Self)
        ensures
            link == *self,
    {
        TransportLinkUnicast { link: self.link.clone(), config: self.config }
    }
}

impl TransportLinkUnicast {
    /// A link under `config`, with the mtu capped by the link's own.
    pub fn new(link: LinkUnicast, config: TransportLinkUnicastConfig) -> (res: Self)
        ensures
            res.link == link,
            res.config == settled(link, config),
    {
        Self::init(link, config)
    }

    /// The same link under another configuration.
    pub fn reconfigure(self, new_config: TransportLinkUnicastConfig) -> (res: Self)
        ensures
            res.link == self.link,
            res.config == settled(self.link, new_config),
    {
        Self::init(self.link, new_config)
    }

    fn init(link: LinkUnicast, config: TransportLinkUnicastConfig) -> (res: Self)
        ensures
            res.link == link,
            res.config == settled(link, config),
    {
        let mut config = config;
        if link.mtu <= config.batch.mtu {
            config.batch.mtu = link.mtu;
        }
        TransportLinkUnicast { link, config }
    }

    /// The link as reported to the rest of the system.
    pub fn link(&self) -> (res: Link)
        ensures
            res.src == self.link.src,
            res.dst == self.link.dst,
            res.mtu == self.link.mtu,
            res.is_streamed == self.link.is_streamed,
            res.priorities == self.config.priorities,
            res.reliability == self.config.reliability,
    {
        Link {
            src: self.link.src.clone(),
            dst: self.link.dst.clone(),
            mtu: self.link.mtu,
            is_streamed: self.link.is_streamed,
            priorities: self.config.priorities,
            reliability: self.config.reliability,
        }
    }

    /// A writer. Under compression it owns an empty buffer large enough for a compressed batch.
    pub fn tx(&self) -> (res: TransportLinkUnicastTx)
        ensures
            res.inner == *self,
            self.config.batch.is_compression ==> (res.buffer matches Some(buffer)
                && buffer.bytes@.len() == 0 && buffer.capacity == compressed_capacity(
                self.config.batch.mtu as nat,
            )),
            !self.config.batch.is_compression ==> res.buffer is None,
    {
        let buffer = if self.config.batch.is_compression {
            Some(
                BBuf {
                    bytes: Vec::new(),
                    capacity: get_maximum_output_size(self.config.batch.mtu as usize),
                },
            )
        } else {
            None
        };
        TransportLinkUnicastTx { inner: self.clone(), buffer }
    }

    /// A throwaway reader: strict framing, so it leaves no bytes stranded when it is dropped after
    /// a single message.
    pub fn rx(&self) -> (res: TransportLinkUnicastRx)
        ensures
            res.wf(),
            res.link == self.link,
            res.config == self.config,
            res.carry is None,
    {
        TransportLinkUnicastRx { link: self.link.clone(), config: self.config, carry: None }
    }

    /// A long-lived reader that owns the byte stream of the link and may therefore over-read: the
    /// surplus is carried over to the next batch. It must be the sole consumer of the socket until
    /// it is dropped, or the carried bytes are lost.
    pub fn rx_buffered(&self) -> (res: TransportLinkUnicastRx)
        ensures
            res.wf(),
            res.link == self.link,
            res.config == self.config,
            res.carry matches Some(carry) && carry@.len() == 0,
    {
        TransportLinkUnicastRx {
            link: self.link.clone(),
            config: self.config,
            carry: Some(RxCarry::default()),
        }
    }

    /// The message to send, its outcome ignored, before the link is closed for `reason`.
    pub fn close(&self, reason: Option<u8>) -> (res: Option<Close>)
        ensures
            reason is None ==> res is None,
            reason matches Some(r) ==> res == Some(Close { reason: r, session: false }),
    {
        match reason {
            Some(reason) => Some(Close { reason, session: false }),
            None => None,
        }
    }
}

/// Whether a transport link is the reported link: both ends are the same.
impl PartialEq<Link> for TransportLinkUnicast {
    fn eq(&self, other: &Link) -> (res: bool) {
        other.src == self.link.src && other.dst == self.link.dst
    }
}

impl vstd::std_specs::cmp::PartialEqSpecImpl<Link> for TransportLinkUnicast {
    open spec fn obeys_eq_spec() -> bool {
        true
    }

    open spec fn eq_spec(&self, other: &Link) -> bool {
        other.src@ == self.link.src@ && other.dst@ == self.link.dst@
    }
}

/// Announces the end of a link, or of the whole session.
#[derive(Clone, Copy, PartialEq, Eq, Structural, Debug)]
pub struct Close {
    pub reason: u8,
    pub session: bool,
}

/// A byte buffer of fixed capacity.
#[derive(Debug)]
pub struct BBuf {
    pub bytes: Vec<u8>,
    pub capacity: usize,
}

/// Where a finalized batch lies.
#[derive(Clone, Copy, PartialEq, Eq, Structural, Debug)]
pub enum Finalize {
    /// In the batch itself.
    Batch,
    /// In the buffer of the writer.
    Buffer,
}

/// The writer of a unicast link.
#[derive(Debug)]
pub struct TransportLinkUnicastTx {
    pub inner: TransportLinkUnicast,
    pub buffer: Option<BBuf>,
}

impl TransportLinkUnicastTx {
    /// The bytes to write for a batch whose finalization gave `finalized` and whose own bytes are
    /// `batch`.
    pub fn send_batch<'a>(&'a self, finalized: Option<Finalize>, batch: &'a [u8]) -> (res: Result<
        &'a [u8],
        LinkError,
    >)
        ensures
            match finalized {
                None => res == Err::<&[u8], LinkError>(LinkError::Write),
                Some(Finalize::Batch) => res matches Ok(bytes) && bytes@ == batch@,
                Some(Finalize::Buffer) => match self.buffer {
                    None => res == Err::<&[u8], LinkError>(LinkError::InvalidBufferFinalization),
                    Some(buffer) => res matches Ok(bytes) && bytes@ == buffer.bytes@,
                },
            },
    {
        match finalized {
            None => Err(LinkError::Write),
            Some(Finalize::Batch) => Ok(batch),
            Some(Finalize::Buffer) => match &self.buffer {
                None => Err(LinkError::InvalidBufferFinalization),
                Some(buffer) => Ok(buffer.bytes.as_slice()),
            },
        }
    }

    /// The bytes to write for a message, and the length to report once they are written: that of
    /// the encoded batch, or `None` if the message does not encode.
    pub fn send<'a>(
        &'a self,
        encoded: Option<u16>,
        finalized: Option<Finalize>,
        batch: &'a [u8],
    ) -> (res: Result<(&'a [u8], usize), LinkError>)
        ensures
            match (encoded, finalized) {
                (Some(len), Some(Finalize::Batch)) => res matches Ok((bytes, n)) && bytes@ == batch@
                    && n == len,
                (Some(len), Some(Finalize::Buffer)) => match self.buffer {
                    None => res == Err::<(&[u8], usize), LinkError>(
                        LinkError::InvalidBufferFinalization,
                    ),
                    Some(buffer) => res matches Ok((bytes, n)) && bytes@ == buffer.bytes@ && n
                        == len,
                },
                _ => res == Err::<(&[u8], usize), LinkError>(LinkError::Write),
            },
    {
        match encoded {
            None => Err(LinkError::Write),
            Some(len) => match self.send_batch(finalized, batch) {
                Ok(bytes) => Ok((bytes, len as usize)),
                Err(error) => Err(error),
            },
        }
    }
}

/// A link settles on the smaller of its own mtu and the configured one, keeps the rest of the
/// configuration, and settles on the same again when it is configured as it is.
pub proof fn link_caps_only_the_mtu(link: LinkUnicast, config: TransportLinkUnicastConfig)
    ensures
        ({
            let mtu = settled(link, config).batch.mtu;
            &&& mtu <= link.mtu
            &&& mtu <= config.batch.mtu
            &&& mtu == link.mtu || mtu == config.batch.mtu
        }),
        settled(link, config).batch.is_streamed == config.batch.is_streamed,
        settled(link, config).batch.is_compression == config.batch.is_compression,
        settled(link, config).direction == config.direction,
        settled(link, config).priorities == config.priorities,
        settled(link, config).reliability == config.reliability,
        settled(link, settled(link, config)) == settled(link, config),
{
}

/// Failures on one link have texts of their own, and all but a missing buffer name the link.
pub proof fn link_errors_are_told_apart(a: LinkError, b: LinkError, link: Seq<char>)
    ensures
        error_text(a, link) == error_text(b, link) ==> a == b,
        a !is InvalidBufferFinalization ==> exists|before: Seq<char>, after: Seq<char>|
            error_text(a, link) == #[trigger] (before + link + after),
{
    reveal_strlit("Write error on link: ");
    reveal_strlit("Decode error on link: ");
    reveal_strlit("Invalid buffer finalization");
    reveal_strlit("Read error from link: ");
    reveal_strlit(". Connection closed.");
    reveal_strlit(". Invalid batch length or buffer size.");
    reveal_strlit(". ZSlice index(es) out of bounds");
    if error_text(a, link) == error_text(b, link) {
        assert(error_text(a, link).len() == error_text(b, link).len());
        assert(error_text(a, link)[0] == error_text(b, link)[0]);
    }
    match a {
        LinkError::Write => {
            assert(error_text(a, link) =~= "Write error on link: "@ + link
                + Seq::<char>::empty());
        },
        LinkError::Decode => {
            assert(error_text(a, link) =~= "Decode error on link: "@ + link
                + Seq::<char>::empty());
        },
        _ => {},
    }
}

} // verus!
