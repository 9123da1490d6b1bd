//! Channels: typed messages over a transport.

/// Protocols define how to interpret the bytes sent over a `Transport` into
/// the message objects expected.
pub mod protocol;

/// Transports define the underlying method used to send and receive raw
/// bytes. This is usually an AF_UNIX socket set to SOCK_DGRAM, and it can be
/// swapped for another if ever necessary.
pub mod transport;

use crate::communication::channel::protocol::message::encoding::{
    message_in, wire_bytes, Encoding, EncodingError, JSONEncoding,
};
use crate::communication::channel::protocol::json::refusal;
use crate::communication::channel::protocol::message::Message;
use crate::communication::channel::protocol::{JSONProtocol, Protocol, ProtocolError};
use crate::communication::channel::transport::{Transport, TransportError};
use crate::text::text_of;
use vstd::prelude::*;
use vstd::slice::slice_subrange;
use vstd::string::*;
use vstd::utf8::{decode_utf8, valid_utf8};

verus! {

/// Why a channel could not do what was asked of it: the error of the layer
/// that failed.
#[derive(Debug)]
pub enum ChannelError {
    TransportError(TransportError),
    ProtocolError(ProtocolError),
    EncodingError(EncodingError),
}

impl From<TransportError> for ChannelError {
    fn from(err: TransportError) -> (error: Self) {
        Self::TransportError(err)
    }
}

impl vstd::std_specs::convert::FromSpecImpl<TransportError> for ChannelError {
    open spec fn obeys_from_spec() -> bool {
        true
    }

    open spec fn from_spec(err: TransportError) -> Self {
        Self::TransportError(err)
    }
}

impl From<ProtocolError> for ChannelError {
    fn from(err: ProtocolError) -> (error: Self) {
        Self::ProtocolError(err)
    }
}

impl vstd::std_specs::convert::FromSpecImpl<ProtocolError> for ChannelError {
    open spec fn obeys_from_spec() -> bool {
        true
    }

    open spec fn from_spec(err: ProtocolError) -> Self {
        Self::ProtocolError(err)
    }
}

impl From<EncodingError> for ChannelError {
    fn from(err: EncodingError) -> (error: Self) {
        Self::EncodingError(err)
    }
}

impl vstd::std_specs::convert::FromSpecImpl<EncodingError> for ChannelError {
    open spec fn obeys_from_spec() -> bool {
        true
    }

    open spec fn from_spec(err: EncodingError) -> Self {
        Self::EncodingError(err)
    }
}

/// The `Channel` trait encapsulates bidirectional communication between the
/// buildroot where modules are executed and the host system. It allows for
/// sending `Message`'s back and forth and the setup of communications.
pub trait Channel {
    /// Prepare a channel with the default settings as proposed by the
    /// `osbuild` version.
    fn new_default() -> Result<Self, ChannelError> where Self: Sized;

    /// Open the channel to a given destination, the destination is dependent
    /// on the transport used in the implementation.
    fn open(&mut self, dst: &str) -> Result<(), ChannelError>;

    /// Send a `Message` across the `Channel` using the encoding specified by
    /// the protocol used in the implementation.
    fn send<T: Message>(&mut self, object: T) -> Result<usize, ChannelError>;

    /// Send a `Message` and receive a `Message` across the `Channel`.
    fn send_and_recv<T0: Message, T1: Message>(&mut self, object: T0) -> Result<T1, ChannelError>;

    /// Receive a `Message` across the `Channel`, you have to indicate the
    /// type of Message you want to receive.
    fn recv<T: Message>(&mut self) -> Result<T, ChannelError>;

    /// Close the channel and with it its transport.
    fn close(&mut self) -> Result<(), ChannelError>;
}

/// How many bytes a channel takes from its transport for one message. What a
/// peer sends beyond that in one unit is lost.
pub const RECEIVE_BUFFER_SIZE: usize = 1024;

/// Where a channel with the default settings sends to.
pub const DEFAULT_DESTINATION: &'static str = "/run/osbuild/api/log";

/// The message that received bytes hold: the one in their text. `None` where
/// the bytes are no UTF-8, or their text holds no message of the variant
/// asked for.
pub open spec fn message_of<T: Message>(bytes: Seq<u8>) -> Option<T::V> {
    if valid_utf8(bytes) {
        message_in::<T>(decode_utf8(bytes))
    } else {
        None
    }
}

/// The bytes that a channel hands to its transport for a message: the bytes
/// of the message on the wire. It fails with an `EncodingError` where they
/// cannot be written.
pub fn pack<T: Message>(object: T) -> (packed: Result<Vec<u8>, ChannelError>)
    ensures
        match packed {
            Ok(bytes) => wire_bytes::<T>(object@) == Some(bytes@),
            Err(error) => error is EncodingError && wire_bytes::<T>(object@) is None,
        },
{
    let encoding = JSONEncoding {  };
    match encoding.encode(object) {
        Ok(bytes) => Ok(bytes),
        Err(error) => Err(ChannelError::from(error)),
    }
}

/// Reads the message that received bytes hold. It fails with an
/// `EncodingError` where the bytes are no UTF-8, and where their text holds
/// no message of the variant asked for.
pub fn unpack<T: Message>(bytes: &[u8]) -> (message: Result<T, ChannelError>)
    ensures
        match message {
            Ok(m) => message_of::<T>(bytes@) == Some(m@),
            Err(error) => error is EncodingError && message_of::<T>(bytes@) is None,
        },
{
    let encoding = JSONEncoding {  };
    match text_of(bytes) {
        Ok(text) => match encoding.decode::<T>(text) {
            Ok(m) => Ok(m),
            Err(error) => Err(ChannelError::from(error)),
        },
        Err(_) => Err(
            ChannelError::from(
                EncodingError::from(refusal("the bytes received are not valid UTF-8")),
            ),
        ),
    }
}

/// Whether `message` is what a channel makes of one receive of its transport
/// that returned `received` and left `buffer`. An error of the transport is
/// handed on as the channel's `TransportError`. Else the bytes that were
/// filled are read as a message; a count beyond the buffer is a
/// `SocketError`.
pub open spec fn accepted<T: Message>(
    received: Result<usize, TransportError>,
    buffer: Seq<u8>,
    message: Result<T, ChannelError>,
) -> bool {
    match received {
        Err(error) => message matches Err(ChannelError::TransportError(e)) && e == error,
        Ok(n) => if n <= buffer.len() {
            match message {
                Ok(m) => message_of::<T>(buffer.subrange(0, n as int)) == Some(m@),
                Err(error) => error is EncodingError && message_of::<T>(
                    buffer.subrange(0, n as int),
                ) is None,
            }
        } else {
            message matches Err(ChannelError::TransportError(TransportError::SocketError))
        },
    }
}

/// What a channel makes of one receive of its transport into `buffer`. An
/// error of the transport is handed on as the channel's `TransportError`.
/// Else the bytes that were filled are read as a message; a count beyond the
/// buffer is a `SocketError`.
pub fn accept<T: Message>(received: Result<usize, TransportError>, buffer: &[u8]) -> (message:
    Result<T, ChannelError>)
    ensures
        accepted(received, buffer@, message),
{
    match received {
        Ok(n) => {
            if n <= buffer.len() {
                unpack::<T>(slice_subrange(buffer, 0, n))
            } else {
                Err(ChannelError::from(TransportError::SocketError))
            }
        },
        Err(error) => Err(ChannelError::from(error)),
    }
}

/// What a channel returns for what its transport returned: a success stands,
/// an error becomes the channel's `TransportError`.
pub open spec fn handed_on<R>(outcome: Result<R, TransportError>) -> Result<R, ChannelError> {
    match outcome {
        Ok(value) => Ok(value),
        Err(error) => Err(ChannelError::TransportError(error)),
    }
}

/// Whether `outcome` is what the transport's `send_all` returned for
/// `bytes`.
pub open spec fn sent_all<T: Transport>(
    transport: T,
    bytes: Seq<u8>,
    outcome: Result<usize, TransportError>,
) -> bool {
    exists|handed: &[u8]|
        handed@ == bytes && #[trigger] call_ensures(T::send_all, (&transport, handed), outcome)
}

/// `CommandChannel` is used to receive and send commands from and to the
/// host system.
pub struct CommandChannel<T: Transport> {
    pub transport: T,
    pub protocol: Box<dyn Protocol>,
}

impl<T: Transport> CommandChannel<T> {
    /// The channel over a transport, given how making the transport ended:
    /// a channel with that transport and the JSON protocol, or the error of
    /// the transport as the channel's `TransportError`.
    pub fn over(made: Result<T, TransportError>) -> (channel: Result<Self, ChannelError>)
        ensures
            match made {
                Ok(transport) => channel matches Ok(c) && c.transport == transport,
                Err(error) => channel matches Err(ChannelError::TransportError(e)) && e == error,
            },
    {
        match made {
            Ok(transport) => Ok(Self { transport, protocol: Box::new(JSONProtocol {  }) }),
            Err(error) => Err(ChannelError::from(error)),
        }
    }
}

impl<T: Transport> Channel for CommandChannel<T> {
    /// A channel over the transport that `Transport::new` makes for
    /// `DEFAULT_DESTINATION` and no local address, with the JSON protocol. It
    /// fails where the transport cannot be made, with the transport's error.
    fn new_default() -> (channel: Result<Self, ChannelError>)
        ensures
            channel matches Err(error) ==> error is TransportError,
            exists|dst: String, made: Result<T, TransportError>|
                dst@ == DEFAULT_DESTINATION@ && #[trigger] call_ensures(
                    T::new,
                    (dst, None::<String>),
                    made,
                ) && (match made {
                    Ok(transport) => channel matches Ok(c) && c.transport == transport,
                    Err(error) => channel matches Err(ChannelError::TransportError(e)) && e
                        == error,
                }),
    {
        CommandChannel::over(T::new(String::from_str(DEFAULT_DESTINATION), None))
    }

    /// Does nothing: the transport is connected since it was made.
    fn open(&mut self, dst: &str) -> (opened: Result<(), ChannelError>)
        ensures
            opened is Ok,
            *final(self) == *old(self),
    {
        Ok(())
    }

    /// Packs the message, hands its bytes to the transport's `send_all`, and
    /// returns what that returns: the count of the bytes, or the transport's
    /// error as `TransportError`. Where the message cannot be packed, an
    /// `EncodingError` comes back and the transport is not called.
    fn send<M: Message>(&mut self, object: M) -> (sent: Result<usize, ChannelError>)
        ensures
            *final(self) == *old(self),
            match sent {
                Ok(n) => wire_bytes::<M>(object@) matches Some(bytes) && n == bytes.len(),
                Err(ChannelError::EncodingError(_)) => wire_bytes::<M>(object@) is None,
                Err(ChannelError::TransportError(_)) => wire_bytes::<M>(object@) is Some,
                Err(ChannelError::ProtocolError(_)) => false,
            },
            wire_bytes::<M>(object@) is Some ==> exists|outcome: Result<usize, TransportError>|
                #[trigger] sent_all(old(self).transport, wire_bytes::<M>(object@)->0, outcome)
                    && sent == handed_on(outcome),
    {
        match pack(object) {
            Ok(bytes) => {
                let handed = bytes.as_slice();
                let outcome = self.transport.send_all(handed);
                assert(sent_all(old(self).transport, wire_bytes::<M>(object@)->0, outcome)) by {
                    assert(call_ensures(T::send_all, (&self.transport, handed), outcome));
                }
                match outcome {
                    Ok(n) => Ok(n),
                    Err(error) => Err(ChannelError::from(error)),
                }
            },
            Err(error) => Err(error),
        }
    }

    /// Sends a message as `send` does and then receives one as `recv` does.
    /// Where sending failed, its error comes back and nothing is received.
    fn send_and_recv<T0: Message, T1: Message>(&mut self, object: T0) -> (reply: Result<
        T1,
        ChannelError,
    >)
        ensures
            *final(self) == *old(self),
            wire_bytes::<T0>(object@) is None ==> reply matches Err(ChannelError::EncodingError(_)),
            wire_bytes::<T0>(object@) is Some ==> exists|sent: Result<usize, TransportError>|
                #[trigger] sent_all(old(self).transport, wire_bytes::<T0>(object@)->0, sent) && (
                match sent {
                    Err(error) => reply matches Err(ChannelError::TransportError(e)) && e == error,
                    Ok(_) => exists|buffer: &mut [u8], outcome: Result<usize, TransportError>|
                        buffer@.len() == RECEIVE_BUFFER_SIZE && #[trigger] call_ensures(
                            T::recv,
                            (&old(self).transport, buffer),
                            outcome,
                        ) && accepted(outcome, final(buffer)@, reply),
                }),
            reply matches Err(error) ==> !(error is ProtocolError),
    {
        match self.send(object) {
            Ok(_) => self.recv::<T1>(),
            Err(error) => Err(error),
        }
    }

    /// Offers the transport's `recv` a buffer of `RECEIVE_BUFFER_SIZE` bytes
    /// and reads the message that the filled bytes hold. An error of the
    /// transport comes back as `TransportError`, bytes that hold no message
    /// of the variant asked for as `EncodingError`.
    fn recv<M: Message>(&mut self) -> (message: Result<M, ChannelError>)
        ensures
            *final(self) == *old(self),
            message matches Err(error) ==> !(error is ProtocolError),
            exists|buffer: &mut [u8], outcome: Result<usize, TransportError>|
                buffer@.len() == RECEIVE_BUFFER_SIZE && #[trigger] call_ensures(
                    T::recv,
                    (&old(self).transport, buffer),
                    outcome,
                ) && accepted(outcome, final(buffer)@, message),
    {
        let mut dat = vec![0u8; RECEIVE_BUFFER_SIZE];
        let received = self.transport.recv(dat.as_mut_slice());
        accept::<M>(received, dat.as_slice())
    }

    /// Closes the transport and returns what that returns: success, or the
    /// transport's error as `TransportError`. The channel must not be used
    /// after that.
    fn close(&mut self) -> (closed: Result<(), ChannelError>)
        ensures
            closed matches Err(error) ==> error is TransportError,
            exists|transport: &mut T, outcome: Result<(), TransportError>|
                mut_ref_current(transport) == old(self).transport && mut_ref_future(transport)
                    == final(self).transport && #[trigger] call_ensures(
                    T::close,
                    (transport,),
                    outcome,
                ) && closed == handed_on(outcome),
    {
        match self.transport.close() {
            Ok(()) => Ok(()),
            Err(error) => Err(ChannelError::from(error)),
        }
    }
}

} // verus!
