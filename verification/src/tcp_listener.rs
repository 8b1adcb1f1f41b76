//! Non-blocking TCP sockets as descriptions of the system calls to make.
//!
//! Nothing here touches the operating system. An operation names the next
//! system call as a `Syscall` value; the caller performs it and hands the
//! result back, and the operation says what follows. A call that would
//! block is not a failure: the operation asks to be registered with the
//! reactor and reports that it is pending.

use crate::error::SysError;
use crate::reactor::EpollEventType;
use crate::reactor::RawFd;
use crate::reactor::Reactor;
use crate::reactor::Registration;
use vstd::prelude::*;

verus! {

/// The number of connections that may wait to be accepted.
pub const BACKLOG: i32 = 128;

/// The file status flag that makes a descriptor non-blocking.
pub const O_NONBLOCK: i32 = 2048;

/// An IPv4 address, held as its four octets, the first one first.
#[derive(Clone, Copy, Debug, PartialEq, Eq, Structural)]
pub struct Ipv4Addr {
    a: u8,
    b: u8,
    c: u8,
    d: u8,
}

/// The 32-bit number of the address `a.b.c.d`, `a` in the highest byte.
pub open spec fn ipv4_bits(a: u8, b: u8, c: u8, d: u8) -> u32 {
    (a as u32) << 24 | (b as u32) << 16 | (c as u32) << 8 | (d as u32)
}

impl View for Ipv4Addr {
    type V = Seq<u8>;

    closed spec fn view(&self) -> Seq<u8> {
        seq![self.a, self.b, self.c, self.d]
    }
}

impl Ipv4Addr {
    /// The address `a.b.c.d`.
    pub fn new(a: u8, b: u8, c: u8, d: u8) -> (addr: Ipv4Addr)
        ensures
            addr@ == seq![a, b, c, d],
    {
        Ipv4Addr { a, b, c, d }
    }

    /// The octets in the order in which they go on the wire.
    pub fn octets(&self) -> (o: [u8; 4])
        ensures
            o@ == self@,
    {
        let o: [u8; 4] = [self.a, self.b, self.c, self.d];
        proof {
            assert(o@ =~= self@);
        }
        o
    }

    /// The address as one number in the machine's own byte order, the
    /// first octet in the highest byte.
    pub fn to_bits(&self) -> (bits: u32)
        ensures
            self@.len() == 4,
            bits == ipv4_bits(self@[0], self@[1], self@[2], self@[3]),
            bits == self@[0] * 16777216 + self@[1] * 65536 + self@[2] * 256 + self@[3],
    {
        let a: u8 = self.a;
        let b: u8 = self.b;
        let c: u8 = self.c;
        let d: u8 = self.d;
        let bits: u32 = (a as u32) << 24 | (b as u32) << 16 | (c as u32) << 8 | (d as u32);
        proof {
            assert(((a as u32) << 24 | (b as u32) << 16 | (c as u32) << 8 | (d as u32)) == (a as u32)
                * 16777216 + (b as u32) * 65536 + (c as u32) * 256 + (d as u32)) by (bit_vector);
        }
        bits
    }
}

/// The two bytes of `port` in the order in which they go on the wire, the
/// high byte first.
pub fn port_octets(port: u16) -> (o: [u8; 2])
    ensures
        o@.len() == 2,
        port == o@[0] * 256 + o@[1],
{
    let high: u8 = (port >> 8) as u8;
    let low: u8 = (port & 0xff) as u8;
    proof {
        assert(port == ((port >> 8) as u8) * 256 + ((port & 0xff) as u8)) by (bit_vector);
    }
    [high, low]
}

/// A system call that an operation asks its caller to make.
#[derive(Clone, Copy, Debug, PartialEq, Eq, Structural)]
pub enum Syscall {
    /// Create an IPv4 stream socket, closed on exec.
    Socket,
    /// Allow the local address to be reused, on socket `fd`.
    SetReuseAddr { fd: RawFd },
    /// Bind socket `fd` to `addr` and `port`. Both go into the socket
    /// address in wire order: `Ipv4Addr::octets` and `port_octets`.
    Bind { fd: RawFd, addr: Ipv4Addr, port: u16 },
    /// Listen on socket `fd`.
    Listen { fd: RawFd, backlog: i32 },
    /// Read the file status flags of `fd`.
    GetFlags { fd: RawFd },
    /// Set the file status flags of `fd`.
    SetFlags { fd: RawFd, flags: i32 },
    /// Accept one connection on listening socket `fd`.
    Accept { fd: RawFd },
    /// Read at most `len` bytes from `fd`.
    Read { fd: RawFd, len: usize },
    /// Write at most `len` bytes to `fd`.
    Write { fd: RawFd, len: usize },
    /// Close `fd`.
    Close { fd: RawFd },
}

/// Where an operation of several system calls stands.
#[derive(Debug, PartialEq, Eq)]
pub enum Progress<S, T> {
    /// Make the call that the state requests and hand it the result.
    Call(S),
    /// The operation is over.
    Done(Result<T, SysError>),
}

/// The result of polling a socket operation.
#[derive(Debug, PartialEq, Eq, Structural)]
pub enum Poll<T> {
    Ready(T),
    Pending,
}

/// Switching a descriptor to non-blocking mode: read its flags, then set
/// them again with `O_NONBLOCK` added.
#[derive(Clone, Copy, Debug, PartialEq, Eq, Structural)]
pub struct SetNonblocking {
    pub fd: RawFd,
    /// The flags that were read, once they were.
    pub flags: Option<i32>,
}

impl SetNonblocking {
    /// The call that this state requests.
    pub open spec fn spec_request(self) -> Syscall {
        match self.flags {
            None => Syscall::GetFlags { fd: self.fd },
            Some(flags) => Syscall::SetFlags { fd: self.fd, flags: flags | O_NONBLOCK },
        }
    }

    /// What follows when the requested call returned `result`.
    pub open spec fn spec_advance(self, result: Result<i32, SysError>) -> Progress<
        SetNonblocking,
        (),
    > {
        match result {
            Err(e) => Progress::Done(Err(e)),
            Ok(value) => match self.flags {
                None => Progress::Call(SetNonblocking { fd: self.fd, flags: Some(value) }),
                Some(_) => Progress::Done(Ok(())),
            },
        }
    }

    /// The switch for `fd`, before its first call.
    pub fn new(fd: RawFd) -> (s: SetNonblocking)
        ensures
            s == (SetNonblocking { fd, flags: None }),
    {
        SetNonblocking { fd, flags: None }
    }

    /// The call to make now.
    pub fn request(&self) -> (call: Syscall)
        ensures
            call == self.spec_request(),
    {
        match self.flags {
            None => Syscall::GetFlags { fd: self.fd },
            Some(flags) => Syscall::SetFlags { fd: self.fd, flags: flags | O_NONBLOCK },
        }
    }

    /// Takes the result of the requested call and says what follows.
    pub fn advance(self, result: Result<i32, SysError>) -> (next: Progress<SetNonblocking, ()>)
        ensures
            next == self.spec_advance(result),
    {
        match result {
            Err(e) => Progress::Done(Err(e)),
            Ok(value) => match self.flags {
                None => Progress::Call(SetNonblocking { fd: self.fd, flags: Some(value) }),
                Some(_) => Progress::Done(Ok(())),
            },
        }
    }
}

/// The outcome of one attempt at a non-blocking call.
#[derive(Debug, PartialEq, Eq)]
pub enum Attempt<T> {
    /// The call completed or failed for good: the operation resolves.
    Ready(Result<T, SysError>),
    /// The call would block: watch `fd` for `interest`, register the
    /// current wakeup with the reactor, and suspend.
    Register { fd: RawFd, interest: EpollEventType },
}

/// Sorts the result of an attempt on `fd`: success and every failure but
/// "would block" resolve the operation; "would block" asks for a
/// registration and resolves nothing.
pub open spec fn classify<T>(
    fd: RawFd,
    interest: EpollEventType,
    attempt: Result<T, SysError>,
) -> Attempt<T> {
    match attempt {
        Ok(value) => Attempt::Ready(Ok(value)),
        Err(e) => if e.would_block() {
            Attempt::Register { fd, interest }
        } else {
            Attempt::Ready(Err(e))
        },
    }
}

/// What a poll reports after it asked the reactor for a registration that
/// the readiness facility answered with `watched`: pending where the
/// registration stands, the facility's error where it does not.
pub open spec fn suspended<T>(watched: Result<(), SysError>) -> Poll<Result<T, SysError>> {
    match watched {
        Ok(()) => Poll::Pending,
        Err(e) => Poll::Ready(Err(e)),
    }
}

fn classify_attempt<T>(fd: RawFd, interest: EpollEventType, attempt: Result<T, SysError>) -> (r:
    Attempt<T>)
    ensures
        r == classify(fd, interest, attempt),
{
    match attempt {
        Ok(value) => Attempt::Ready(Ok(value)),
        Err(e) => if e.is_would_block() {
            Attempt::Register { fd, interest }
        } else {
            Attempt::Ready(Err(e))
        },
    }
}

fn register_wakeup<W, T>(
    reactor: &mut Reactor<W>,
    fd: RawFd,
    interest: EpollEventType,
    waker: W,
    watched: Result<(), SysError>,
) -> (r: Poll<Result<T, SysError>>)
    ensures
        r == suspended::<T>(watched),
        final(reactor)@ == (match watched {
            Ok(()) => old(reactor)@.insert(fd, Registration { interest, waker }),
            Err(_) => old(reactor)@,
        }),
{
    match reactor.add_event(fd, interest, waker, watched) {
        Ok(()) => Poll::Pending,
        Err(e) => Poll::Ready(Err(e)),
    }
}

/// A socket as a mathematical value: its descriptor, and whether the
/// descriptor is still to be closed.
pub struct SocketState {
    pub fd: RawFd,
    pub open: bool,
}

impl SocketState {
    /// The socket after it gave up its descriptor.
    pub open spec fn closed(self) -> SocketState {
        SocketState { fd: self.fd, open: false }
    }

    /// The call that giving up the descriptor asks for: one close while
    /// the socket is open, none after that.
    pub open spec fn closing_call(self) -> Option<Syscall> {
        if self.open {
            Some(Syscall::Close { fd: self.fd })
        } else {
            None
        }
    }
}

/// A listening socket. It owns its descriptor until it is closed. Only
/// `close` ends that, and nothing starts it again.
#[derive(Debug, PartialEq, Eq, Structural)]
pub struct TcpListener {
    fd: RawFd,
    open: bool,
}

/// A connected socket. It owns its descriptor until it is closed. Only
/// `close` ends that, and nothing starts it again.
#[derive(Debug, PartialEq, Eq, Structural)]
pub struct TcpStream {
    fd: RawFd,
    open: bool,
}

impl View for TcpListener {
    type V = SocketState;

    closed spec fn view(&self) -> SocketState {
        SocketState { fd: self.fd, open: self.open }
    }
}

impl View for TcpStream {
    type V = SocketState;

    closed spec fn view(&self) -> SocketState {
        SocketState { fd: self.fd, open: self.open }
    }
}

/// The progress `progress` with the socket it ends in, if it ends in one,
/// taken as a mathematical value.
pub open spec fn done_view<S, T: View>(progress: Progress<S, T>) -> Progress<S, T::V> {
    match progress {
        Progress::Call(state) => Progress::Call(state),
        Progress::Done(Ok(socket)) => Progress::Done(Ok(socket@)),
        Progress::Done(Err(e)) => Progress::Done(Err(e)),
    }
}

/// The endless sequence of connections that a listener accepts.
pub struct Incoming<'a>(pub &'a TcpListener);

/// One attempt to accept a connection.
pub struct AcceptFuture<'a>(pub &'a TcpListener);

/// One attempt to read into a buffer.
pub struct ReadFuture<'a>(pub &'a TcpStream, pub &'a mut [u8]);

/// One attempt to write a buffer.
pub struct WriteFuture<'a>(pub &'a TcpStream, pub &'a [u8]);

/// The steps of `TcpListener::bind`, in their order. Each step after the
/// first names the socket that the first one created.
#[derive(Clone, Copy, Debug, PartialEq, Eq, Structural)]
pub enum BindStage {
    Socket,
    ReuseAddr { sock: RawFd },
    BindAddr { sock: RawFd },
    Listen { sock: RawFd },
    Nonblocking { switch: SetNonblocking },
    /// The switch to non-blocking mode failed with `error`: the socket is
    /// closed before the error is reported.
    Closing { sock: RawFd, error: SysError },
}

/// A bind in progress.
#[derive(Clone, Copy, Debug, PartialEq, Eq, Structural)]
pub struct Bind {
    pub addr: Ipv4Addr,
    pub port: u16,
    pub stage: BindStage,
}

impl Bind {
    /// The call that this state requests.
    pub open spec fn spec_request(self) -> Syscall {
        match self.stage {
            BindStage::Socket => Syscall::Socket,
            BindStage::ReuseAddr { sock } => Syscall::SetReuseAddr { fd: sock },
            BindStage::BindAddr { sock } => Syscall::Bind {
                fd: sock,
                addr: self.addr,
                port: self.port,
            },
            BindStage::Listen { sock } => Syscall::Listen { fd: sock, backlog: BACKLOG },
            BindStage::Nonblocking { switch } => switch.spec_request(),
            BindStage::Closing { sock, error } => Syscall::Close { fd: sock },
        }
    }

    /// This bind at another stage.
    pub open spec fn at(self, stage: BindStage) -> Bind {
        Bind { stage, ..self }
    }

    /// What follows when the requested call returned `result`. A failure
    /// ends the bind with its error. Only a failure of the last two calls
    /// first closes the socket.
    pub open spec fn spec_advance(self, result: Result<i32, SysError>) -> Progress<
        Bind,
        SocketState,
    > {
        match result {
            Err(e) => match self.stage {
                BindStage::Nonblocking { switch } => Progress::Call(
                    self.at(BindStage::Closing { sock: switch.fd, error: e }),
                ),
                BindStage::Closing { sock, error } => Progress::Done(Err(error)),
                _ => Progress::Done(Err(e)),
            },
            Ok(value) => match self.stage {
                BindStage::Socket => Progress::Call(self.at(BindStage::ReuseAddr { sock: value })),
                BindStage::ReuseAddr { sock } => Progress::Call(
                    self.at(BindStage::BindAddr { sock }),
                ),
                BindStage::BindAddr { sock } => Progress::Call(self.at(BindStage::Listen { sock })),
                BindStage::Listen { sock } => Progress::Call(
                    self.at(
                        BindStage::Nonblocking { switch: SetNonblocking { fd: sock, flags: None } },
                    ),
                ),
                BindStage::Nonblocking { switch } => match switch.flags {
                    None => Progress::Call(
                        self.at(
                            BindStage::Nonblocking {
                                switch: SetNonblocking { fd: switch.fd, flags: Some(value) },
                            },
                        ),
                    ),
                    Some(_) => Progress::Done(Ok(SocketState { fd: switch.fd, open: true })),
                },
                BindStage::Closing { sock, error } => Progress::Done(Err(error)),
            },
        }
    }

    /// The call to make now.
    pub fn request(&self) -> (call: Syscall)
        ensures
            call == self.spec_request(),
    {
        match self.stage {
            BindStage::Socket => Syscall::Socket,
            BindStage::ReuseAddr { sock } => Syscall::SetReuseAddr { fd: sock },
            BindStage::BindAddr { sock } => Syscall::Bind {
                fd: sock,
                addr: self.addr,
                port: self.port,
            },
            BindStage::Listen { sock } => Syscall::Listen { fd: sock, backlog: BACKLOG },
            BindStage::Nonblocking { switch } => switch.request(),
            BindStage::Closing { sock, error: _ } => Syscall::Close { fd: sock },
        }
    }

    /// Takes the result of the requested call and says what follows.
    pub fn advance(self, result: Result<i32, SysError>) -> (next: Progress<Bind, TcpListener>)
        ensures
            done_view(next) == self.spec_advance(result),
    {
        let Bind { addr, port, stage } = self;
        let next_stage = match stage {
            BindStage::Socket => match result {
                Ok(sock) => BindStage::ReuseAddr { sock },
                Err(e) => {
                    return Progress::Done(Err(e));
                },
            },
            BindStage::ReuseAddr { sock } => match result {
                Ok(_) => BindStage::BindAddr { sock },
                Err(e) => {
                    return Progress::Done(Err(e));
                },
            },
            BindStage::BindAddr { sock } => match result {
                Ok(_) => BindStage::Listen { sock },
                Err(e) => {
                    return Progress::Done(Err(e));
                },
            },
            BindStage::Listen { sock } => match result {
                Ok(_) => BindStage::Nonblocking { switch: SetNonblocking::new(sock) },
                Err(e) => {
                    return Progress::Done(Err(e));
                },
            },
            BindStage::Nonblocking { switch } => match switch.advance(result) {
                Progress::Call(next) => BindStage::Nonblocking { switch: next },
                Progress::Done(Ok(())) => {
                    return Progress::Done(Ok(TcpListener { fd: switch.fd, open: true }));
                },
                Progress::Done(Err(e)) => BindStage::Closing { sock: switch.fd, error: e },
            },
            BindStage::Closing { sock: _, error } => {
                return Progress::Done(Err(error));
            },
        };
        Progress::Call(Bind { addr, port, stage: next_stage })
    }
}

/// The stages of making an accepted connection non-blocking.
#[derive(Clone, Copy, Debug, PartialEq, Eq, Structural)]
pub enum AcceptedStage {
    Nonblocking(SetNonblocking),
    /// The switch failed with this error: the connection is closed before
    /// the error is reported.
    Closing(SysError),
}

/// A connection that was accepted and is being made non-blocking. It
/// becomes a `TcpStream` once it is.
#[derive(Clone, Copy, Debug, PartialEq, Eq, Structural)]
pub struct Accepted {
    /// The descriptor of the connection.
    pub fd: RawFd,
    pub stage: AcceptedStage,
}

impl Accepted {
    /// The call that this state requests.
    pub open spec fn spec_request(self) -> Syscall {
        match self.stage {
            AcceptedStage::Nonblocking(switch) => switch.spec_request(),
            AcceptedStage::Closing(_) => Syscall::Close { fd: self.fd },
        }
    }

    /// What follows when the requested call returned `result`: the
    /// connection as an open socket once it is non-blocking; or, where the
    /// switch failed, the closing of the connection and then the switch's
    /// error.
    pub open spec fn spec_advance(self, result: Result<i32, SysError>) -> Progress<
        Accepted,
        SocketState,
    > {
        match self.stage {
            AcceptedStage::Nonblocking(switch) => match switch.spec_advance(result) {
                Progress::Call(next) => Progress::Call(
                    Accepted { fd: self.fd, stage: AcceptedStage::Nonblocking(next) },
                ),
                Progress::Done(Ok(())) => Progress::Done(
                    Ok(SocketState { fd: self.fd, open: true }),
                ),
                Progress::Done(Err(e)) => Progress::Call(
                    Accepted { fd: self.fd, stage: AcceptedStage::Closing(e) },
                ),
            },
            AcceptedStage::Closing(e) => Progress::Done(Err(e)),
        }
    }

    /// The call to make now.
    pub fn request(&self) -> (call: Syscall)
        ensures
            call == self.spec_request(),
    {
        match self.stage {
            AcceptedStage::Nonblocking(switch) => switch.request(),
            AcceptedStage::Closing(_) => Syscall::Close { fd: self.fd },
        }
    }

    /// Takes the result of the requested call and says what follows.
    pub fn advance(self, result: Result<i32, SysError>) -> (next: Progress<Accepted, TcpStream>)
        ensures
            done_view(next) == self.spec_advance(result),
    {
        let Accepted { fd, stage } = self;
        match stage {
            AcceptedStage::Nonblocking(switch) => match switch.advance(result) {
                Progress::Call(next) => Progress::Call(
                    Accepted { fd, stage: AcceptedStage::Nonblocking(next) },
                ),
                Progress::Done(Ok(())) => Progress::Done(Ok(TcpStream { fd, open: true })),
                Progress::Done(Err(e)) => Progress::Call(
                    Accepted { fd, stage: AcceptedStage::Closing(e) },
                ),
            },
            AcceptedStage::Closing(e) => Progress::Done(Err(e)),
        }
    }
}

impl TcpListener {
    /// The listener that owns the listening socket `fd` from now on. The
    /// caller gives the descriptor to one socket only.
    pub fn new(fd: RawFd) -> (listener: TcpListener)
        ensures
            listener@ == (SocketState { fd, open: true }),
    {
        TcpListener { fd, open: true }
    }

    /// The descriptor.
    pub fn as_raw_fd(&self) -> (fd: RawFd)
        ensures
            fd == self@.fd,
    {
        self.fd
    }

    /// Whether the descriptor is still to be closed.
    pub fn is_open(&self) -> (open: bool)
        ensures
            open == self@.open,
    {
        self.open
    }

    /// Starts a bind of a new listening socket to `addr` and `port`:
    /// create the socket, allow address reuse, bind, listen with `BACKLOG`,
    /// and make the socket non-blocking.
    pub fn bind(addr: Ipv4Addr, port: u16) -> (b: Bind)
        ensures
            b == (Bind { addr, port, stage: BindStage::Socket }),
    {
        Bind { addr, port, stage: BindStage::Socket }
    }

    /// The connection that an accept call returned, or its error as it is.
    /// "Would block" is not sorted out here.
    pub fn accept(&self, returned: Result<RawFd, SysError>) -> (r: Result<TcpStream, SysError>)
        ensures
            match returned {
                Ok(fd) => r is Ok && r->Ok_0@ == (SocketState { fd, open: true }),
                Err(e) => r == Err::<TcpStream, SysError>(e),
            },
    {
        match returned {
            Ok(fd) => Ok(TcpStream { fd, open: true }),
            Err(e) => Err(e),
        }
    }

    /// The connections to come. The sequence has no end.
    pub fn incoming<'a>(&'a self) -> (incoming: Incoming<'a>)
        ensures
            incoming.0 == self,
    {
        Incoming(self)
    }

    /// Starts the switch of this socket to non-blocking mode.
    pub fn setnonblocking(&self) -> (switch: SetNonblocking)
        ensures
            switch == (SetNonblocking { fd: self@.fd, flags: None }),
    {
        SetNonblocking::new(self.fd)
    }

    /// Gives up the descriptor: the call that closes it, the first time;
    /// nothing after that.
    pub fn close(&mut self) -> (call: Option<Syscall>)
        ensures
            final(self)@ == old(self)@.closed(),
            call == old(self)@.closing_call(),
    {
        if self.open {
            self.open = false;
            Some(Syscall::Close { fd: self.fd })
        } else {
            None
        }
    }
}

impl<'a> Incoming<'a> {
    /// The attempt to accept the next connection. There always is one.
    pub fn next(&self) -> (attempt: AcceptFuture<'a>)
        ensures
            attempt.0 == self.0,
    {
        AcceptFuture(self.0)
    }
}

impl<'a> AcceptFuture<'a> {
    /// The call to attempt.
    pub fn request(&self) -> (call: Syscall)
        ensures
            call == (Syscall::Accept { fd: self.0@.fd }),
    {
        Syscall::Accept { fd: self.0.fd }
    }

    /// Sorts the result of the accept call. An accepted connection is
    /// still to be made non-blocking. "Would block" asks for a
    /// registration of the listener for reading.
    pub fn poll(&self, attempt: Result<RawFd, SysError>) -> (r: Attempt<Accepted>)
        ensures
            r == classify(
                self.0@.fd,
                EpollEventType::In,
                match attempt {
                    Ok(fd) => Ok(
                        Accepted {
                            fd,
                            stage: AcceptedStage::Nonblocking(SetNonblocking { fd, flags: None }),
                        },
                    ),
                    Err(e) => Err(e),
                },
            ),
    {
        match self.0.accept(attempt) {
            Ok(stream) => {
                let switch = stream.setnonblocking();
                Attempt::Ready(
                    Ok(Accepted { fd: stream.fd, stage: AcceptedStage::Nonblocking(switch) }),
                )
            },
            Err(e) => classify_attempt(self.0.fd, EpollEventType::In, Err(e)),
        }
    }

    /// Registers `waker` for the listener becoming readable, after the
    /// readiness facility answered `watched`, and says what the poll
    /// reports.
    pub fn suspend<W>(
        &self,
        reactor: &mut Reactor<W>,
        waker: W,
        watched: Result<(), SysError>,
    ) -> (r: Poll<Option<Result<TcpStream, SysError>>>)
        ensures
            r == (match watched {
                Ok(()) => Poll::<Option<Result<TcpStream, SysError>>>::Pending,
                Err(e) => Poll::Ready(Some(Err::<TcpStream, SysError>(e))),
            }),
            final(reactor)@ == (match watched {
                Ok(()) => old(reactor)@.insert(
                    self.0@.fd,
                    Registration { interest: EpollEventType::In, waker },
                ),
                Err(_) => old(reactor)@,
            }),
    {
        match reactor.add_event(self.0.fd, EpollEventType::In, waker, watched) {
            Ok(()) => Poll::Pending,
            Err(e) => Poll::Ready(Some(Err(e))),
        }
    }

    /// What the poll reports once the accepted connection was handled:
    /// always an item of the sequence, never its end.
    pub fn finish(&self, outcome: Result<TcpStream, SysError>) -> (r: Poll<
        Option<Result<TcpStream, SysError>>,
    >)
        ensures
            r == Poll::Ready(Some(outcome)),
    {
        Poll::Ready(Some(outcome))
    }
}

impl TcpStream {
    /// The stream that owns the connected socket `fd` from now on. The
    /// caller gives the descriptor to one socket only.
    pub fn new(fd: RawFd) -> (stream: TcpStream)
        ensures
            stream@ == (SocketState { fd, open: true }),
    {
        TcpStream { fd, open: true }
    }

    /// The descriptor.
    pub fn as_raw_fd(&self) -> (fd: RawFd)
        ensures
            fd == self@.fd,
    {
        self.fd
    }

    /// Whether the descriptor is still to be closed.
    pub fn is_open(&self) -> (open: bool)
        ensures
            open == self@.open,
    {
        self.open
    }

    /// Starts the switch of this socket to non-blocking mode.
    pub fn setnonblocking(&self) -> (switch: SetNonblocking)
        ensures
            switch == (SetNonblocking { fd: self@.fd, flags: None }),
    {
        SetNonblocking::new(self.fd)
    }

    /// An attempt to read into `buf`. Making it reads nothing: the buffer
    /// goes into the attempt as it is.
    pub fn read<'a>(&'a self, buf: &'a mut [u8]) -> (attempt: ReadFuture<'a>)
        ensures
            attempt.0 == self,
            attempt.1@ == old(buf)@,
    {
        ReadFuture(self, buf)
    }

    /// An attempt to write `buf`.
    pub fn write<'a>(&'a self, buf: &'a [u8]) -> (attempt: WriteFuture<'a>)
        ensures
            attempt.0 == self,
            attempt.1 == buf,
    {
        WriteFuture(self, buf)
    }

    /// Gives up the descriptor: the call that closes it, the first time;
    /// nothing after that.
    pub fn close(&mut self) -> (call: Option<Syscall>)
        ensures
            final(self)@ == old(self)@.closed(),
            call == old(self)@.closing_call(),
    {
        if self.open {
            self.open = false;
            Some(Syscall::Close { fd: self.fd })
        } else {
            None
        }
    }
}

impl<'a> ReadFuture<'a> {
    /// The call to attempt.
    pub fn request(&self) -> (call: Syscall)
        ensures
            call == (Syscall::Read { fd: self.0@.fd, len: old(self.1)@.len() as usize }),
    {
        Syscall::Read { fd: self.0.fd, len: self.1.len() }
    }

    /// Sorts the result of the read call. A count of zero is a result like
    /// any other: the peer has closed its side, and the caller decides.
    /// "Would block" asks for a registration of the socket for reading.
    pub fn poll(&self, attempt: Result<usize, SysError>) -> (r: Attempt<usize>)
        ensures
            r == classify(self.0@.fd, EpollEventType::In, attempt),
    {
        classify_attempt(self.0.fd, EpollEventType::In, attempt)
    }

    /// Registers `waker` for the socket becoming readable, after the
    /// readiness facility answered `watched`, and says what the poll
    /// reports.
    pub fn suspend<W>(
        &self,
        reactor: &mut Reactor<W>,
        waker: W,
        watched: Result<(), SysError>,
    ) -> (r: Poll<Result<usize, SysError>>)
        ensures
            r == suspended::<usize>(watched),
            final(reactor)@ == (match watched {
                Ok(()) => old(reactor)@.insert(
                    self.0@.fd,
                    Registration { interest: EpollEventType::In, waker },
                ),
                Err(_) => old(reactor)@,
            }),
    {
        register_wakeup(reactor, self.0.fd, EpollEventType::In, waker, watched)
    }
}

impl<'a> WriteFuture<'a> {
    /// The call to attempt.
    pub fn request(&self) -> (call: Syscall)
        ensures
            call == (Syscall::Write { fd: self.0@.fd, len: self.1@.len() as usize }),
    {
        Syscall::Write { fd: self.0.fd, len: self.1.len() }
    }

    /// Sorts the result of the write call. "Would block" asks for a
    /// registration of the socket for writing.
    pub fn poll(&self, attempt: Result<usize, SysError>) -> (r: Attempt<usize>)
        ensures
            r == classify(self.0@.fd, EpollEventType::Out, attempt),
    {
        classify_attempt(self.0.fd, EpollEventType::Out, attempt)
    }

    /// Registers `waker` for the socket becoming writable, after the
    /// readiness facility answered `watched`, and says what the poll
    /// reports.
    pub fn suspend<W>(
        &self,
        reactor: &mut Reactor<W>,
        waker: W,
        watched: Result<(), SysError>,
    ) -> (r: Poll<Result<usize, SysError>>)
        ensures
            r == suspended::<usize>(watched),
            final(reactor)@ == (match watched {
                Ok(()) => old(reactor)@.insert(
                    self.0@.fd,
                    Registration { interest: EpollEventType::Out, waker },
                ),
                Err(_) => old(reactor)@,
            }),
    {
        register_wakeup(reactor, self.0.fd, EpollEventType::Out, waker, watched)
    }
}

/// An attempt asks for a registration exactly when its call failed with
/// "would block". A call that succeeded resolves with its value, a count
/// of zero included, and any other failure resolves with its error; in
/// neither case is anything registered.
pub proof fn lemma_register_only_on_would_block<T>(
    fd: RawFd,
    interest: EpollEventType,
    attempt: Result<T, SysError>,
)
    ensures
        classify(fd, interest, attempt) is Register <==> (attempt is Err
            && attempt->Err_0.would_block()),
        classify(fd, interest, attempt) is Register ==> classify(fd, interest, attempt) == (
        Attempt::<T>::Register { fd, interest }),
        attempt is Ok ==> classify(fd, interest, attempt) == Attempt::Ready(attempt),
        attempt is Err && !attempt->Err_0.would_block() ==> classify(fd, interest, attempt)
            == Attempt::Ready(attempt),
{
}

/// A bind whose six calls all succeed makes them in this order: create
/// the socket, allow address reuse, bind to the address and port, listen
/// with `BACKLOG`, read the flags, set them with `O_NONBLOCK` added. It
/// ends with an open listener on the socket that the first call returned.
pub proof fn lemma_bind_succeeds(
    addr: Ipv4Addr,
    port: u16,
    sock: RawFd,
    reuse: i32,
    bound: i32,
    listening: i32,
    flags: i32,
    set: i32,
)
    ensures
        ({
            let b0 = Bind { addr, port, stage: BindStage::Socket };
            let b1 = b0.at(BindStage::ReuseAddr { sock });
            let b2 = b0.at(BindStage::BindAddr { sock });
            let b3 = b0.at(BindStage::Listen { sock });
            let b4 = b0.at(
                BindStage::Nonblocking { switch: SetNonblocking { fd: sock, flags: None } },
            );
            let b5 = b0.at(
                BindStage::Nonblocking { switch: SetNonblocking { fd: sock, flags: Some(flags) } },
            );
            &&& b0.spec_request() == Syscall::Socket
            &&& b0.spec_advance(Ok(sock)) == Progress::<Bind, SocketState>::Call(b1)
            &&& b1.spec_request() == Syscall::SetReuseAddr { fd: sock }
            &&& b1.spec_advance(Ok(reuse)) == Progress::<Bind, SocketState>::Call(b2)
            &&& b2.spec_request() == Syscall::Bind { fd: sock, addr, port }
            &&& b2.spec_advance(Ok(bound)) == Progress::<Bind, SocketState>::Call(b3)
            &&& b3.spec_request() == Syscall::Listen { fd: sock, backlog: BACKLOG }
            &&& b3.spec_advance(Ok(listening)) == Progress::<Bind, SocketState>::Call(b4)
            &&& b4.spec_request() == Syscall::GetFlags { fd: sock }
            &&& b4.spec_advance(Ok(flags)) == Progress::<Bind, SocketState>::Call(b5)
            &&& b5.spec_request() == Syscall::SetFlags { fd: sock, flags: flags | O_NONBLOCK }
            &&& b5.spec_advance(Ok(set)) == Progress::<Bind, SocketState>::Done(
                Ok(SocketState { fd: sock, open: true }),
            )
        }),
{
}

/// A bind ends with the error of the first call that fails. Where that
/// call belongs to the switch to non-blocking mode, the socket is closed
/// first, by one call whose own result changes nothing.
pub proof fn lemma_bind_reports_first_failure(
    bind: Bind,
    e: SysError,
    closed: Result<i32, SysError>,
)
    ensures
        match bind.stage {
            BindStage::Nonblocking { switch } => {
                let closing = bind.at(BindStage::Closing { sock: switch.fd, error: e });
                &&& bind.spec_advance(Err(e)) == Progress::<Bind, SocketState>::Call(closing)
                &&& closing.spec_request() == Syscall::Close { fd: switch.fd }
                &&& closing.spec_advance(closed) == Progress::<Bind, SocketState>::Done(Err(e))
            },
            BindStage::Closing { sock, error } => bind.spec_advance(Err(e)) == Progress::<
                Bind,
                SocketState,
            >::Done(Err(error)),
            _ => bind.spec_advance(Err(e)) == Progress::<Bind, SocketState>::Done(Err(e)),
        },
{
}

/// An accepted connection whose two flag calls succeed comes out as an
/// open socket on its descriptor, with `O_NONBLOCK` added to its flags.
/// Where a flag call fails, the connection is closed by one call, whose
/// own result changes nothing, and the failure is reported.
pub proof fn lemma_accepted_is_nonblocking_or_closed(
    fd: RawFd,
    flags: i32,
    set: i32,
    e: SysError,
    closed: Result<i32, SysError>,
)
    ensures
        ({
            let a0 = Accepted {
                fd,
                stage: AcceptedStage::Nonblocking(SetNonblocking { fd, flags: None }),
            };
            let a1 = Accepted {
                fd,
                stage: AcceptedStage::Nonblocking(SetNonblocking { fd, flags: Some(flags) }),
            };
            let closing = Accepted { fd, stage: AcceptedStage::Closing(e) };
            &&& a0.spec_request() == Syscall::GetFlags { fd }
            &&& a0.spec_advance(Ok(flags)) == Progress::<Accepted, SocketState>::Call(a1)
            &&& a1.spec_request() == Syscall::SetFlags { fd, flags: flags | O_NONBLOCK }
            &&& a1.spec_advance(Ok(set)) == Progress::<Accepted, SocketState>::Done(
                Ok(SocketState { fd, open: true }),
            )
            &&& a0.spec_advance(Err(e)) == Progress::<Accepted, SocketState>::Call(closing)
            &&& a1.spec_advance(Err(e)) == Progress::<Accepted, SocketState>::Call(closing)
            &&& closing.spec_request() == Syscall::Close { fd }
            &&& closing.spec_advance(closed) == Progress::<Accepted, SocketState>::Done(Err(e))
        }),
{
}

/// Connections that were accepted on different descriptors come out as
/// different sockets, each on its own descriptor: none is handed out
/// twice and none takes the place of another.
pub proof fn lemma_accepted_sockets_are_distinct(
    first: RawFd,
    second: RawFd,
    first_flags: i32,
    second_flags: i32,
    set: i32,
)
    requires
        first != second,
    ensures
        ({
            let a = Accepted {
                fd: first,
                stage: AcceptedStage::Nonblocking(
                    SetNonblocking { fd: first, flags: Some(first_flags) },
                ),
            };
            let b = Accepted {
                fd: second,
                stage: AcceptedStage::Nonblocking(
                    SetNonblocking { fd: second, flags: Some(second_flags) },
                ),
            };
            &&& a.spec_advance(Ok(set)) == Progress::<Accepted, SocketState>::Done(
                Ok(SocketState { fd: first, open: true }),
            )
            &&& b.spec_advance(Ok(set)) == Progress::<Accepted, SocketState>::Done(
                Ok(SocketState { fd: second, open: true }),
            )
            &&& a.spec_advance(Ok(set)) != b.spec_advance(Ok(set))
        }),
{
}

/// A socket closes its descriptor once: closing asks for the close call
/// while the socket is open, and a socket that was closed asks for none
/// and is not changed by being closed again.
pub proof fn lemma_close_happens_once(socket: SocketState)
    ensures
        socket.open ==> socket.closing_call() == Some(Syscall::Close { fd: socket.fd }),
        socket.closed().closing_call() == None::<Syscall>,
        socket.closed().closed() == socket.closed(),
{
}

} // verus!
