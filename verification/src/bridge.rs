//! The bridge of one process: its role, its base directory, and every
//! decision of the channel's life.
//!
//! The bridge performs no system call. The owning process claims the socket
//! file, connects, sends and receives, and tells the bridge how each
//! operation ended; the bridge says what is to be done next, which bytes
//! are to be sent, and what the received bytes mean.

use std::marker::PhantomData;
use vstd::prelude::*;
use vstd::slice::{slice_subrange, slice_to_vec};
use vstd::string::StringSliceAdditionalSpecFns;
use crate::codec::{decode, encode};
use crate::error::Error;
use crate::message::{Instruction, read_datagram, wire_instruction};
use crate::path::{join, joined};
use crate::role::{Client, Role, Server, SockEnd};

verus! {

/// Size of the receive buffer where none is set: the longest datagram that
/// arrives whole.
pub const READBUF_SIZE: usize = 60_000;

/// Seconds after which a peer that does not accept a connection is given
/// up, where no other time is set.
pub const CONNECT_TIMEOUT_SECS: u64 = 3;

/// `CONNECT_TIMEOUT_SECS` in nanoseconds, the unit in which time is judged.
pub const CONNECT_TIMEOUT_NANOS: u128 = 3_000_000_000;

/// The channel of one process, fixed to one role.
#[derive(Debug)]
pub struct Bridge<T: SockEnd> {
    base: Vec<u8>,
    ceiling: usize,
    timeout_nanos: u128,
    __marker_t: PhantomData<T>,
}

/// The bridge of the process that claims the first socket and sends to the
/// second, with the ceiling and the timeout that are usual.
pub fn server(base: &[u8]) -> (bridge: Bridge<Server>)
    ensures
        bridge.base() == base@,
        bridge.ceiling() == READBUF_SIZE,
        bridge.timeout_nanos() == CONNECT_TIMEOUT_NANOS,
{
    Bridge {
        base: slice_to_vec(base),
        ceiling: READBUF_SIZE,
        timeout_nanos: CONNECT_TIMEOUT_NANOS,
        __marker_t: PhantomData,
    }
}

/// The bridge of the process that claims the second socket and sends to the
/// first, with the ceiling and the timeout that are usual.
pub fn client(base: &[u8]) -> (bridge: Bridge<Client>)
    ensures
        bridge.base() == base@,
        bridge.ceiling() == READBUF_SIZE,
        bridge.timeout_nanos() == CONNECT_TIMEOUT_NANOS,
{
    Bridge {
        base: slice_to_vec(base),
        ceiling: READBUF_SIZE,
        timeout_nanos: CONNECT_TIMEOUT_NANOS,
        __marker_t: PhantomData,
    }
}

/// The step that is due while a process claims its socket.
#[derive(Debug, Clone, Copy, PartialEq, Eq, Structural)]
pub enum BindStage {
    /// Look whether a file lies at the socket's path.
    Probe,
    /// Remove the file that lies there: whoever left it is taken for dead.
    RemoveStale,
    /// Bind the inbound socket to the path.
    Bind,
    /// Open the outbound socket, bound to nothing.
    OpenOutbound,
    /// Nothing is left to do: the bridge can connect.
    Ready,
}

/// How the step that was due ended.
#[derive(Debug)]
pub enum BindEvent {
    /// The look at the path, and whether a file lies there.
    Probed { found: bool },
    /// The removal, the binding or the opening, and its outcome.
    Finished(Result<(), std::io::Error>),
}

/// The step that follows `due` once `event` has come in, or the failure that
/// ends the claiming. An event that does not answer the step that was due
/// leaves that step due.
pub open spec fn spec_bind_step(due: BindStage, event: BindEvent) -> Result<BindStage, Error> {
    match (due, event) {
        (BindStage::Probe, BindEvent::Probed { found }) => Ok(
            if found {
                BindStage::RemoveStale
            } else {
                BindStage::Bind
            },
        ),
        (BindStage::RemoveStale, BindEvent::Finished(Ok(_))) => Ok(BindStage::Bind),
        (BindStage::RemoveStale, BindEvent::Finished(Err(cause))) => Err(Error::Bind(cause)),
        (BindStage::Bind, BindEvent::Finished(Ok(_))) => Ok(BindStage::OpenOutbound),
        (BindStage::Bind, BindEvent::Finished(Err(cause))) => Err(Error::Bind(cause)),
        (BindStage::OpenOutbound, BindEvent::Finished(Ok(_))) => Ok(BindStage::Ready),
        (BindStage::OpenOutbound, BindEvent::Finished(Err(cause))) => Err(Error::Transport(cause)),
        _ => Ok(due),
    }
}

/// What a connection attempt leads to.
#[derive(Debug)]
pub enum ConnectStep {
    /// The outbound socket is connected to the peer.
    Connected,
    /// The attempt failed and time is left: try again at once.
    Retry,
    /// The attempt failed and the time is over.
    GiveUp(Error),
}

/// What the attempt `attempt` leads to, judged `elapsed_nanos` nanoseconds
/// after the first attempt began, under a timeout of `timeout_nanos`: a
/// failed attempt is repeated until the elapsed time exceeds the timeout.
pub open spec fn spec_connect_step(
    attempt: Result<(), std::io::Error>,
    elapsed_nanos: u128,
    timeout_nanos: u128,
) -> ConnectStep {
    match attempt {
        Ok(_) => ConnectStep::Connected,
        Err(cause) => if elapsed_nanos > timeout_nanos {
            ConnectStep::GiveUp(Error::ConnectTimeout(cause))
        } else {
            ConnectStep::Retry
        },
    }
}

/// The bytes that a read put into the buffer `buf`, where it reported
/// `count` of them: the first `count` bytes, and no more than the buffer
/// holds.
pub open spec fn bytes_read(buf: Seq<u8>, count: usize) -> Seq<u8> {
    if count <= buf.len() {
        buf.take(count as int)
    } else {
        buf
    }
}

/// Whether `buf` and `count` are what one read of the datagram `datagram`
/// leaves in a buffer of `ceiling` bytes: the datagram at the front of the
/// buffer, cut off at the buffer's end where it is longer, and the number of
/// bytes that were put there. What the buffer holds behind them is open.
pub open spec fn holds_datagram(buf: Seq<u8>, count: usize, datagram: Seq<u8>, ceiling: usize)
    -> bool {
    &&& buf.len() == ceiling
    &&& count == if datagram.len() <= ceiling {
        datagram.len()
    } else {
        ceiling as nat
    }
    &&& buf.take(count as int) == datagram.take(count as int)
}

impl<T: SockEnd> Bridge<T> {
    /// The directory that both socket files lie in, as the bytes of its
    /// path.
    pub closed spec fn base(&self) -> Seq<u8> {
        self.base@
    }

    /// The longest datagram, in bytes, that this bridge sends and receives.
    pub closed spec fn ceiling(&self) -> usize {
        self.ceiling
    }

    /// Nanoseconds after which this bridge gives a peer up.
    pub closed spec fn timeout_nanos(&self) -> u128 {
        self.timeout_nanos
    }

    /// This bridge with another ceiling. The two ends of a channel have to
    /// agree on it: what one end sends, the other has to have room for.
    pub fn with_ceiling(self, ceiling: usize) -> (bridge: Self)
        ensures
            bridge.base() == self.base(),
            bridge.ceiling() == ceiling,
            bridge.timeout_nanos() == self.timeout_nanos(),
    {
        Bridge {
            base: self.base,
            ceiling,
            timeout_nanos: self.timeout_nanos,
            __marker_t: PhantomData,
        }
    }

    /// This bridge with another time, in nanoseconds, after which a peer is
    /// given up.
    pub fn with_connect_timeout(self, timeout_nanos: u128) -> (bridge: Self)
        ensures
            bridge.base() == self.base(),
            bridge.ceiling() == self.ceiling(),
            bridge.timeout_nanos() == timeout_nanos,
    {
        Bridge { base: self.base, ceiling: self.ceiling, timeout_nanos, __marker_t: PhantomData }
    }

    /// The longest datagram, in bytes, that this bridge sends and receives.
    pub fn max_datagram(&self) -> (ceiling: usize)
        ensures
            ceiling == self.ceiling(),
    {
        self.ceiling
    }

    /// Nanoseconds after which this bridge gives a peer up.
    pub fn connect_timeout(&self) -> (timeout_nanos: u128)
        ensures
            timeout_nanos == self.timeout_nanos(),
    {
        self.timeout_nanos
    }

    /// Path of the socket that this bridge claims and receives on.
    pub open spec fn spec_bind_path(&self) -> Seq<u8> {
        joined(self.base(), T::spec_role().spec_socket_file())
    }

    /// Path of the socket that this bridge connects and sends to.
    pub open spec fn spec_peer_path(&self) -> Seq<u8> {
        joined(self.base(), T::spec_role().spec_peer().spec_socket_file())
    }

    /// The role of this bridge.
    pub fn role(&self) -> (role: Role)
        ensures
            role == T::spec_role(),
    {
        T::role()
    }

    /// Path of the socket that this bridge claims and receives on.
    pub fn bind_path(&self) -> (path: Vec<u8>)
        ensures
            path@ == self.spec_bind_path(),
    {
        join(self.base.as_slice(), T::role().socket_name().as_bytes())
    }

    /// Path of the socket that this bridge connects and sends to: the one
    /// that the peer claims.
    pub fn peer_path(&self) -> (path: Vec<u8>)
        ensures
            path@ == self.spec_peer_path(),
    {
        join(self.base.as_slice(), T::role().peer().socket_name().as_bytes())
    }

    /// The first step of claiming the socket.
    pub fn bind_start(&self) -> (due: BindStage)
        ensures
            due == BindStage::Probe,
    {
        BindStage::Probe
    }

    /// The step that follows `due` once `event` has come in, or the failure
    /// that ends the claiming. A file found at the path is removed before
    /// the socket is bound; a removal or a binding that fails is a bind
    /// failure.
    pub fn bind_step(&self, due: BindStage, event: BindEvent) -> (next: Result<BindStage, Error>)
        ensures
            next == spec_bind_step(due, event),
    {
        match due {
            BindStage::Probe => match event {
                BindEvent::Probed { found } => if found {
                    Ok(BindStage::RemoveStale)
                } else {
                    Ok(BindStage::Bind)
                },
                BindEvent::Finished(_) => Ok(due),
            },
            BindStage::RemoveStale => match event {
                BindEvent::Finished(Ok(_)) => Ok(BindStage::Bind),
                BindEvent::Finished(Err(cause)) => Err(Error::Bind(cause)),
                BindEvent::Probed { .. } => Ok(due),
            },
            BindStage::Bind => match event {
                BindEvent::Finished(Ok(_)) => Ok(BindStage::OpenOutbound),
                BindEvent::Finished(Err(cause)) => Err(Error::Bind(cause)),
                BindEvent::Probed { .. } => Ok(due),
            },
            BindStage::OpenOutbound => match event {
                BindEvent::Finished(Ok(_)) => Ok(BindStage::Ready),
                BindEvent::Finished(Err(cause)) => Err(Error::Transport(cause)),
                BindEvent::Probed { .. } => Ok(due),
            },
            BindStage::Ready => Ok(due),
        }
    }

    /// Whether the peer's socket is there, judged by one attempt to connect
    /// the outbound socket to `peer_path`: it is where the attempt did not
    /// fail.
    pub fn alive(&self, attempt: Result<(), std::io::Error>) -> (up: bool)
        ensures
            up == (attempt is Ok),
    {
        match attempt {
            Ok(_) => true,
            Err(_) => false,
        }
    }

    /// What one attempt to connect the outbound socket to `peer_path` leads
    /// to. `elapsed_nanos` is the time since the first attempt began, in
    /// nanoseconds, read after the attempt. The owning process repeats the
    /// attempt at once while this says `Retry`; it is told to give up by the
    /// first failed attempt that ends after more than the timeout, and by no
    /// earlier one.
    pub fn connect_blocking(&self, attempt: Result<(), std::io::Error>, elapsed_nanos: u128) -> (step:
        ConnectStep)
        ensures
            step == spec_connect_step(attempt, elapsed_nanos, self.timeout_nanos()),
    {
        match attempt {
            Ok(_) => ConnectStep::Connected,
            Err(cause) => if elapsed_nanos > self.timeout_nanos {
                ConnectStep::GiveUp(Error::ConnectTimeout(cause))
            } else {
                ConnectStep::Retry
            },
        }
    }

    /// The datagram that carries `instruction`, to be written on the
    /// outbound socket in one piece. A message whose datagram would be
    /// longer than the ceiling is refused before anything is written: the
    /// peer could not receive it whole.
    pub fn send(&self, instruction: Instruction) -> (r: Result<Vec<u8>, Error>)
        ensures
            wire_instruction(instruction@).len() <= self.ceiling() ==> r is Ok && r.unwrap()@
                == wire_instruction(instruction@),
            wire_instruction(instruction@).len() > self.ceiling() ==> r == Err::<Vec<u8>, Error>(
                Error::Oversized { ceiling: self.ceiling() },
            ),
    {
        let datagram = encode(&instruction);
        if datagram.len() > self.ceiling {
            Err(Error::Oversized { ceiling: self.ceiling })
        } else {
            Ok(datagram)
        }
    }

    /// A buffer to receive one datagram into: as many zeros as the ceiling
    /// says.
    pub fn recv_buffer(&self) -> (buf: Vec<u8>)
        ensures
            buf@ == Seq::new(self.ceiling() as nat, |i: int| 0u8),
    {
        let buf = vec![0u8; self.ceiling];
        assert(buf@ =~= Seq::new(self.ceiling() as nat, |i: int| 0u8));
        buf
    }

    /// The message that was received. `outcome` is what the read on the
    /// inbound socket returned, the number of bytes that it put into `buf`
    /// or its failure. A failed read is handed on as it is. Only the bytes
    /// that were read are looked at: where no message begins with them, the
    /// answer is a decode failure, whatever the buffer holds behind them.
    pub fn recv(&self, outcome: Result<usize, std::io::Error>, buf: &[u8]) -> (r: Result<
        Instruction,
        Error,
    >)
        ensures
            match outcome {
                Err(cause) => r == Err::<Instruction, Error>(Error::Transport(cause)),
                Ok(count) => match read_datagram(bytes_read(buf@, count)) {
                    Some(v) => r is Ok && r.unwrap()@ == v,
                    None => r == Err::<Instruction, Error>(Error::Decode),
                },
            },
    {
        match outcome {
            Err(cause) => Err(Error::Transport(cause)),
            Ok(count) => if count <= buf.len() {
                decode(slice_subrange(buf, 0, count))
            } else {
                decode(buf)
            },
        }
    }
}

} // verus!
