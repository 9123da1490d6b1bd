//! Transports: raw bytes to and from one peer.

use vstd::prelude::*;
use vstd::slice::slice_subrange;
use vstd::string::*;

verus! {

/// `std::io::Error`: why the operating system refused. Nothing is known of
/// what is inside.
#[verifier::external_type_specification]
#[verifier::external_body]
pub struct ExIoError(std::io::Error);

/// Why a transport could not do what was asked of it.
#[derive(Debug)]
pub enum TransportError {
    /// The operating system refused.
    IOError(std::io::Error),
    /// The transport itself is in no state to go on.
    SocketError,
}

impl From<std::io::Error> for TransportError {
    fn from(err: std::io::Error) -> (error: Self) {
        Self::IOError(err)
    }
}

impl vstd::std_specs::convert::FromSpecImpl<std::io::Error> for TransportError {
    open spec fn obeys_from_spec() -> bool {
        true
    }

    open spec fn from_spec(err: std::io::Error) -> Self {
        Self::IOError(err)
    }
}

/// The local address that a datagram endpoint binds to: the one asked for,
/// or the empty one, for which the system picks an address of its own.
pub fn local_address(src: Option<String>) -> (address: String)
    ensures
        address@ == match src {
            Some(path) => path@,
            None => Seq::<char>::empty(),
        },
{
    match src {
        Some(path) => path,
        None => String::new(),
    }
}

/// The path that binding a datagram endpoint to `src` has made, and that
/// closing the endpoint is to remove. Binding to no address, or to the empty
/// one, makes no path.
pub fn bound_path(src: &Option<String>) -> (path: Option<&str>)
    ensures
        match path {
            Some(made) => src matches Some(asked) && made@ == asked@ && asked@.len() > 0,
            None => src matches Some(asked) ==> asked@.len() == 0,
        },
{
    match src {
        Some(asked) => {
            if asked.as_str().is_empty() {
                None
            } else {
                Some(asked.as_str())
            }
        },
        None => None,
    }
}

/// How far the sending of one buffer has come: the buffer, and how many of
/// its bytes the writes made so far have taken.
pub struct Sending<'a> {
    buf: &'a [u8],
    sent: usize,
}

impl<'a> Sending<'a> {
    #[verifier::type_invariant]
    spec fn in_buffer(self) -> bool {
        self.sent <= self.buf@.len()
    }

    /// The buffer that is being sent.
    pub closed spec fn buffer(self) -> Seq<u8> {
        self.buf@
    }

    /// How many bytes of the buffer the writes have taken.
    pub closed spec fn count(self) -> nat {
        self.sent as nat
    }

    /// What the writes have taken, in their order: what the peer has of the
    /// buffer.
    pub open spec fn taken(self) -> Seq<u8> {
        self.buffer().subrange(0, self.count() as int)
    }

    /// What is left to send: what the next write is handed.
    pub open spec fn left(self) -> Seq<u8> {
        self.buffer().subrange(self.count() as int, self.buffer().len() as int)
    }

    /// The sending of `buf`, before its first write.
    pub fn start(buf: &'a [u8]) -> (sending: Self)
        ensures
            sending.buffer() == buf@,
            sending.count() == 0,
    {
        Sending { buf, sent: 0 }
    }

    /// How many bytes of the buffer the writes have taken.
    pub fn sent(&self) -> (sent: usize)
        ensures
            sent == self.count(),
            sent <= self.buffer().len(),
    {
        proof {
            use_type_invariant(self);
        }
        self.sent
    }

    /// What the next write is to be handed: all that is left of the buffer.
    /// `None` when nothing is left; the writes have then taken the whole
    /// buffer.
    pub fn rest(&self) -> (rest: Option<&'a [u8]>)
        ensures
            match rest {
                Some(bytes) => bytes@ == self.left() && bytes@.len() > 0,
                None => self.taken() == self.buffer(),
            },
    {
        proof {
            use_type_invariant(self);
        }
        if self.sent < self.buf.len() {
            Some(slice_subrange(self.buf, self.sent, self.buf.len()))
        } else {
            assert(self.taken() =~= self.buffer());
            None
        }
    }

    /// Accounts for the outcome of a write that was handed what is left. A
    /// write that took some of it adds that to what was taken. One that took
    /// nothing, or more than it was handed, is no progress: it is reported
    /// as a `SocketError`. An error of the write stands as it is. Where an
    /// error comes back, the sending stays as it was.
    pub fn written(&mut self, outcome: Result<usize, TransportError>) -> (progress: Result<
        (),
        TransportError,
    >)
        ensures
            final(self).buffer() == old(self).buffer(),
            final(self).count() <= final(self).buffer().len(),
            match outcome {
                Ok(n) => if 0 < n <= old(self).left().len() {
                    &&& progress is Ok
                    &&& final(self).count() == old(self).count() + n
                    &&& final(self).taken() == old(self).taken() + old(self).left().subrange(
                        0,
                        n as int,
                    )
                } else {
                    &&& progress matches Err(TransportError::SocketError)
                    &&& final(self).count() == old(self).count()
                },
                Err(error) => {
                    &&& progress matches Err(e)
                    &&& e == error
                    &&& final(self).count() == old(self).count()
                },
            },
    {
        proof {
            use_type_invariant(&*self);
        }
        match outcome {
            Ok(n) => {
                if 0 < n && n <= self.buf.len() - self.sent {
                    self.sent = self.sent + n;
                    assert(self.taken() =~= old(self).taken() + old(self).left().subrange(
                        0,
                        n as int,
                    ));
                    Ok(())
                } else {
                    Err(TransportError::SocketError)
                }
            },
            Err(error) => Err(error),
        }
    }
}

/// Nothing of a buffer is lost on the way: at any point of its sending, what
/// the writes have taken and what is left to hand to the next write make up
/// the buffer; so once nothing is left, the writes have taken all of it, in
/// its order.
pub proof fn lemma_nothing_lost(sending: Sending)
    requires
        sending.count() <= sending.buffer().len(),
    ensures
        sending.taken() + sending.left() == sending.buffer(),
        sending.left().len() == 0 ==> sending.taken() == sending.buffer(),
{
    assert(sending.taken() + sending.left() =~= sending.buffer());
    if sending.left().len() == 0 {
        assert(sending.taken() =~= sending.buffer());
    }
}

/// Whether `outcome` is what the transport's `send` returned when it was
/// handed the bytes of `buf` from `from` on.
pub open spec fn wrote<T: ?Sized, F: FnOnce(&T, &[u8]) -> Result<usize, TransportError>>(
    send: F,
    transport: &T,
    buf: Seq<u8>,
    from: int,
    outcome: Result<usize, TransportError>,
) -> bool {
    exists|rest: &[u8]|
        rest@ == buf.subrange(from, buf.len() as int) && #[trigger] call_ensures(
            send,
            (transport, rest),
            outcome,
        )
}

/// Whether writes of the transport went through `buf` by `marks`: the first
/// was handed all of `buf`, each one took some of what it was handed, up to
/// the next mark, and the next was handed what was left from there on.
pub open spec fn went_through<T: ?Sized, F: FnOnce(&T, &[u8]) -> Result<usize, TransportError>>(
    send: F,
    transport: &T,
    buf: Seq<u8>,
    marks: Seq<int>,
) -> bool {
    &&& marks.len() > 0
    &&& marks[0] == 0
    &&& 0 <= marks.last() <= buf.len()
    &&& forall|i: int|
        0 <= i < marks.len() - 1 ==> (#[trigger] marks[i]) < marks[i + 1] <= buf.len() && wrote(
            send,
            transport,
            buf,
            marks[i],
            Ok((marks[i + 1] - marks[i]) as usize),
        )
}

/// Whether a write that was handed `left` bytes and returned `outcome` ends
/// the sending with `error`: the write failed with that error, or it took
/// nothing or more than it was handed and the error is a `SocketError`.
pub open spec fn stopped(outcome: Result<usize, TransportError>, left: int, error: TransportError) -> bool {
    match outcome {
        Ok(n) => (n == 0 || n > left) && error is SocketError,
        Err(e) => error == e,
    }
}

/// One endpoint that moves bytes to and from one peer. What its methods
/// return is the transport's own matter: nothing is taken for granted of it.
pub trait Transport {
    /// A transport to `dst`, bound to `src` where the transport needs a local
    /// address, or to one of its own choice where `src` is `None`.
    fn new(dst: String, src: Option<String>) -> Result<Self, TransportError> where Self: Sized;

    /// Releases the transport. It must not be used after that.
    fn close(&mut self) -> Result<(), TransportError>;

    /// Takes one unit of what the peer sent into `buf` and returns how many
    /// bytes of `buf` it filled, from the start. The length of `buf` stays,
    /// as that of any slice does.
    fn recv(&self, buf: &mut [u8]) -> (received: Result<usize, TransportError>)
        ensures
            final(buf)@.len() == old(buf)@.len(),
    ;

    /// Makes one write of `buf` and returns how many of its bytes, from the
    /// start, the write took. It may take fewer than all.
    fn send(&self, buf: &[u8]) -> Result<usize, TransportError>;

    /// Sends all of `buf`: hands what is left of it to `send`, again and
    /// again, until nothing is left, and returns the length of `buf`. It
    /// stops with the error of the first write that fails, and with a
    /// `SocketError` at a write that takes nothing or more than it was
    /// handed. Of an empty `buf` nothing is written. Either way the writes
    /// that were made went through `buf` in its order: each was handed all
    /// that the ones before it had left.
    fn send_all(&self, buf: &[u8]) -> (written: Result<usize, TransportError>)
        ensures
            buf@.len() == 0 ==> written is Ok,
            match written {
                Ok(n) => n == buf@.len() && exists|marks: Seq<int>|
                    #[trigger] went_through(Self::send, self, buf@, marks) && marks.last() == buf@.len(),
                Err(error) => exists|marks: Seq<int>, outcome: Result<usize, TransportError>|
                    #[trigger] went_through(Self::send, self, buf@, marks) && marks.last() < buf@.len()
                        && #[trigger] wrote(Self::send, self, buf@, marks.last(), outcome) && stopped(
                        outcome,
                        buf@.len() - marks.last(),
                        error,
                    ),
            },
    {
        let mut sending = Sending::start(buf);
        let ghost mut marks: Seq<int> = seq![0int];
        loop
            invariant
                sending.buffer() == buf@,
                sending.count() <= buf@.len(),
                went_through(Self::send, self, buf@, marks),
                marks.last() == sending.count(),
            decreases buf@.len() - sending.count(),
        {
            match sending.rest() {
                Some(rest) => {
                    let outcome = self.send(rest);
                    let ghost returned = outcome;
                    let ghost from = sending.count() as int;
                    assert(wrote(Self::send, self, buf@, from, returned)) by {
                        assert(call_ensures(Self::send, (self, rest), returned));
                    }
                    match sending.written(outcome) {
                        Ok(()) => {
                            proof {
                                let before = marks;
                                marks = marks.push(sending.count() as int);
                                assert forall|i: int| 0 <= i < marks.len() - 1 implies (
                                #[trigger] marks[i]) < marks[i + 1] <= buf@.len() && wrote(
                                    Self::send,
                                    self,
                                    buf@,
                                    marks[i],
                                    Ok((marks[i + 1] - marks[i]) as usize),
                                ) by {
                                    if i < before.len() - 1 {
                                        assert(marks[i] == before[i]);
                                        assert(marks[i + 1] == before[i + 1]);
                                    } else {
                                        assert(marks[i] == from);
                                    }
                                }
                            }
                        },
                        Err(error) => {
                            return Err(error);
                        },
                    }
                },
                None => {
                    return Ok(sending.sent());
                },
            }
        }
    }
}

} // verus!
