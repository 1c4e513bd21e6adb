//! Acknowledging the opening of a unicast link.

use vstd::prelude::*;
use vstd::string::*;

use crate::link::Link;
use crate::link::TransportLinkUnicast;
use crate::link::TransportLinkUnicastConfig;
use crate::link::TransportLinkUnicastTx;
#[allow(unused_imports)]
use crate::link::compressed_capacity;

verus! {

/// The message that acknowledges an open, encoded.
#[derive(Debug)]
pub struct OpenAck {
    pub body: Vec<u8>,
}

/// A link on which an open may still have to be acknowledged.
#[derive(Debug)]
pub struct MaybeOpenAck {
    pub link: TransportLinkUnicastTx,
    pub open_ack: Option<OpenAck>,
}

/// An acknowledgement on its way: the message, and the compression to return to once it is sent.
#[derive(Debug)]
pub struct OpenAckSend {
    pub msg: OpenAck,
    pub compression: bool,
}

/// The writer with its compression set to `on`; nothing else changes.
pub open spec fn with_compression(tx: TransportLinkUnicastTx, on: bool) -> TransportLinkUnicastTx {
    TransportLinkUnicastTx {
        inner: TransportLinkUnicast {
            config: TransportLinkUnicastConfig {
                batch: crate::link::BatchConfig { is_compression: on, ..tx.inner.config.batch },
                ..tx.inner.config
            },
            ..tx.inner
        },
        ..tx
    }
}

impl MaybeOpenAck {
    /// A writer of `link` with an acknowledgement to send, if there is one.
    pub fn new(link: &TransportLinkUnicast, open_ack: Option<OpenAck>) -> (res: Self)
        ensures
            res.link.inner == *link,
            link.config.batch.is_compression ==> (res.link.buffer matches Some(buffer)
                && buffer.bytes@.len() == 0 && buffer.capacity == compressed_capacity(
                link.config.batch.mtu as nat,
            )),
            !link.config.batch.is_compression ==> res.link.buffer is None,
            res.open_ack == open_ack,
    {
        MaybeOpenAck { link: link.tx(), open_ack }
    }

    /// Begins to acknowledge: hands out the message, if there is one, to be sent on the writer as it
    /// now is. An acknowledgement is never compressed, though the link may already be set to
    /// compress, so compression is off until [`Self::open_ack_sent`].
    pub fn send_open_ack(&mut self) -> (res: Option<OpenAckSend>)
        ensures
            final(self).open_ack is None,
            match old(self).open_ack {
                Some(msg) => {
                    &&& res == Some(
                        OpenAckSend {
                            msg,
                            compression: old(self).link.inner.config.batch.is_compression,
                        },
                    )
                    &&& final(self).link == with_compression(old(self).link, false)
                },
                None => res is None && final(self).link == old(self).link,
            },
    {
        match self.open_ack.take() {
            Some(msg) => {
                let compression: bool = self.link.inner.config.batch.is_compression;
                self.link.inner.config.batch.is_compression = false;
                Some(OpenAckSend { msg, compression })
            },
            None => None,
        }
    }

    /// Ends an acknowledgement that was sent.
    pub fn open_ack_sent(&mut self, sent: OpenAckSend)
        ensures
            final(self).open_ack == old(self).open_ack,
            final(self).link == with_compression(old(self).link, sent.compression),
    {
        self.link.inner.config.batch.is_compression = sent.compression;
    }

    /// The link as reported to the rest of the system.
    pub fn link(&self) -> (res: Link)
        ensures
            res.src == self.link.inner.link.src,
            res.dst == self.link.inner.link.dst,
            res.mtu == self.link.inner.link.mtu,
            res.is_streamed == self.link.inner.link.is_streamed,
            res.priorities == self.link.inner.config.priorities,
            res.reliability == self.link.inner.config.reliability,
    {
        self.link.inner.link()
    }
}

/// Acknowledging an open leaves the writer as it was: compression returns to what it was before.
pub proof fn acknowledging_restores_compression(tx: TransportLinkUnicastTx)
    ensures
        with_compression(
            with_compression(tx, false),
            tx.inner.config.batch.is_compression,
        ) == tx,
        !with_compression(tx, false).inner.config.batch.is_compression,
{
}

/// An opened link, the acknowledgement still to be sent on it, and a link associated with it.
#[derive(Debug)]
pub struct LinkUnicastWithOpenAck {
    pub link: TransportLinkUnicast,
    pub ack: Option<OpenAck>,
    pub associated_link: Option<TransportLinkUnicast>,
}

impl LinkUnicastWithOpenAck {
    pub fn new(
        link: TransportLinkUnicast,
        ack: Option<OpenAck>,
        associated_link: Option<TransportLinkUnicast>,
    ) -> (res: Self)
        ensures
            res.link == link,
            res.ack == ack,
            res.associated_link == associated_link,
    {
        LinkUnicastWithOpenAck { link, ack, associated_link }
    }

    pub fn inner_config(&self) -> (res: &TransportLinkUnicastConfig)
        ensures
            *res == self.link.config,
    {
        &self.link.config
    }

    /// The parts of a link that was accepted.
    pub fn unpack(self) -> (res: (TransportLinkUnicast, MaybeOpenAck, Option<TransportLinkUnicast>))
        ensures
            res.0 == self.link,
            res.1.link.inner == self.link,
            self.link.config.batch.is_compression ==> (res.1.link.buffer matches Some(buffer)
                && buffer.bytes@.len() == 0 && buffer.capacity == compressed_capacity(
                self.link.config.batch.mtu as nat,
            )),
            !self.link.config.batch.is_compression ==> res.1.link.buffer is None,
            res.1.open_ack == self.ack,
            res.2 == self.associated_link,
    {
        let ack = MaybeOpenAck::new(&self.link, self.ack);
        (self.link, ack, self.associated_link)
    }

    /// The parts of a link that was refused: the acknowledgement is dropped.
    pub fn fail(self) -> (res: (TransportLinkUnicast, Option<TransportLinkUnicast>))
        ensures
            res.0 == self.link,
            res.1 == self.associated_link,
    {
        (self.link, self.associated_link)
    }

    /// The text of this link, where `link` is that of the link alone and `ack` that of the
    /// acknowledgement.
    pub fn text(&self, link: &str, ack: &str) -> (text: String)
        ensures
            text@ == match self.ack {
                Some(_) => link@ + "("@ + ack@ + ")"@,
                None => link@,
            },
    {
        match &self.ack {
            Some(_) => link.to_owned().concat("(").concat(ack).concat(")"),
            None => link.to_owned(),
        }
    }
}

/// Setting the compression of a writer changes nothing else of it.
pub proof fn only_the_compression_is_set(tx: TransportLinkUnicastTx, on: bool)
    ensures
        with_compression(tx, on).inner.config.batch.is_compression == on,
        with_compression(tx, on).inner.config.batch.mtu == tx.inner.config.batch.mtu,
        with_compression(tx, on).inner.config.batch.is_streamed
            == tx.inner.config.batch.is_streamed,
        with_compression(tx, on).inner.config.direction == tx.inner.config.direction,
        with_compression(tx, on).inner.config.priorities == tx.inner.config.priorities,
        with_compression(tx, on).inner.config.reliability == tx.inner.config.reliability,
        with_compression(tx, on).inner.link == tx.inner.link,
        with_compression(tx, on).buffer == tx.buffer,
{
}

} // verus!
