//! TCP sockets, connections and listeners.
//!
//! A listener is set up in a fixed sequence of system calls: create a
//! socket, bind it to the endpoint, listen, link it to the application's
//! completion port, create the socket that the next connection will be
//! accepted into, and start an overlapped accept. [`ListenerSetup`] makes
//! every decision of that sequence: it is handed what each call returned and
//! answers with the next call to make, or with the failure and the sockets
//! that must be closed.

use std::rc::Rc;
use vstd::prelude::*;

use crate::app::App;
use crate::app::EventData;
use crate::app::EventNotify;
use crate::app::Handle;
use crate::app::Result;
use crate::net::endpoint::Endpoint;
use crate::net::endpoint::EndpointV4;
use crate::win32::InAddr;
use crate::win32::Overlapped;
use crate::win32::SockAddrIn;
use crate::win32::AF_INET;
use crate::win32::ERROR_IO_PENDING;
use crate::win32::INVALID_SOCKET;
use crate::win32::IPPROTO_TCP;
use crate::win32::SOCK_STREAM;
use crate::win32::SOMAXCONN;

verus! {

/// Size of one IPv4 socket address record.
pub const ADDR_BYTES: usize = 16;

/// Room that an overlapped accept needs for one address.
pub const ADDR_BUFFER_BYTES: usize = ADDR_BYTES + 16;

/// Room for the local and the remote address of an accepted connection.
pub const ADDRS_BUFFER_BYTES: usize = ADDR_BUFFER_BYTES * 2;

/// Client code that receives the data that arrives on a connection.
pub trait TcpReceiveNotify: Sized {
    fn on_tcp_receive(&mut self, data: &[u8], conn: &mut TcpConnection<Self>);
}

/// Client code that is told of each new connection, and answers with the
/// object that receives that connection's data.
pub trait TcpConnectNotify {
    type Receiver: TcpReceiveNotify;

    fn on_tcp_connect(&mut self) -> Self::Receiver;
}

/// `p` with its two bytes exchanged: the port in network byte order.
pub open spec fn swap16(p: u16) -> u16 {
    ((p % 256) * 256 + p / 256) as u16
}

/// A system error code as the result of an operation.
pub fn get_error<T>(code: u32) -> (r: Result<T>)
    ensures
        r == Err::<T, u32>(code),
{
    Err(code)
}

/// The result of a call that returns zero on success: `Ok` where `result`
/// is zero, else the error code that the system reported for the call.
pub fn check_status(result: i32, error: u32) -> (r: Result<()>)
    ensures
        result == 0 ==> r == Ok::<(), u32>(()),
        result != 0 ==> r == Err::<(), u32>(error),
{
    if result != 0 {
        return get_error(error);
    }
    Ok(())
}

/// A socket handle, or the invalid handle where no socket is open.
pub struct Socket {
    handle: Handle,
}

impl Socket {
    /// The raw handle, `INVALID_SOCKET` where no socket is open.
    pub closed spec fn raw(self) -> Handle {
        self.handle
    }

    /// A socket is open.
    pub open spec fn valid(self) -> bool {
        self.raw() != INVALID_SOCKET
    }

    pub fn is_valid(&self) -> (r: bool)
        ensures
            r == self.valid(),
    {
        self.handle != INVALID_SOCKET
    }

    /// The raw handle of this socket.
    pub fn handle(&self) -> (r: Handle)
        ensures
            r == self.raw(),
    {
        self.handle
    }

    /// No socket.
    pub fn new_invalid() -> (r: Socket)
        ensures
            r.raw() == INVALID_SOCKET,
    {
        Socket { handle: INVALID_SOCKET }
    }

    /// The socket that the system created, given the handle that `socket`
    /// returned and the error code reported right after: the error where
    /// the handle is `INVALID_SOCKET`, else the socket with that handle.
    pub fn new(handle: Handle, error: u32) -> (r: Result<Socket>)
        ensures
            handle == INVALID_SOCKET ==> (r matches Err(e) && e == error),
            handle != INVALID_SOCKET ==> (r matches Ok(s) && s.raw() == handle),
    {
        if handle == INVALID_SOCKET {
            return get_error(error);
        }
        Ok(Socket { handle })
    }

    /// The address record that binds a socket to `endpoint`: the IPv4
    /// family, the port in network byte order, the four address bytes and
    /// zero padding.
    pub fn bind_address(endpoint: &Endpoint) -> (r: SockAddrIn)
        ensures
            r == sockaddr_of(*endpoint),
            match *endpoint {
                Endpoint::V4(v4) => {
                    &&& r.sin_family == AF_INET
                    &&& r.sin_addr.s_b1 == v4.spec_address().bytes()[0]
                    &&& r.sin_addr.s_b2 == v4.spec_address().bytes()[1]
                    &&& r.sin_addr.s_b3 == v4.spec_address().bytes()[2]
                    &&& r.sin_addr.s_b4 == v4.spec_address().bytes()[3]
                    &&& r.sin_port % 256 == v4.spec_port() / 256
                    &&& r.sin_port / 256 == v4.spec_port() % 256
                    &&& forall|i: int| 0 <= i < 8 ==> r.sa_zero@[i] == 0
                },
            },
    {
        let Endpoint::V4(v4) = endpoint;
        let octets = v4.address().octets();
        let p = v4.port();
        assert(((p & 0xff) << 8) + ((p & 0xff00) >> 8) == (p % 256) * 256 + p / 256
            && ((p & 0xff) << 8) + ((p & 0xff00) >> 8) <= 0xffff) by (bit_vector);
        let port = ((p & 0xff) << 8) + ((p & 0xff00) >> 8);
        let zero: [u8; 8] = [0, 0, 0, 0, 0, 0, 0, 0];
        let r = SockAddrIn {
            sin_family: AF_INET as i16,
            sin_port: port,
            sin_addr: InAddr { s_b1: octets[0], s_b2: octets[1], s_b3: octets[2], s_b4: octets[3] },
            sa_zero: zero,
        };
        r
    }

    /// Marks the socket closed. Returns the handle that the caller must
    /// close, where a socket was open; `None` where none was.
    pub fn close(&mut self) -> (r: Option<Handle>)
        ensures
            final(self).raw() == INVALID_SOCKET,
            old(self).valid() ==> r == Some(old(self).raw()),
            !old(self).valid() ==> r is None,
    {
        if self.handle != INVALID_SOCKET {
            let h = self.handle;
            self.handle = INVALID_SOCKET;
            Some(h)
        } else {
            None
        }
    }
}

/// A connection: its socket handle, its two endpoints and the object that
/// receives its data.
pub struct TcpConnection<R> {
    handle: Handle,
    local: Endpoint,
    remote: Endpoint,
    notify: R,
}

impl<R: TcpReceiveNotify> TcpConnection<R> {
    pub closed spec fn spec_handle(self) -> Handle {
        self.handle
    }

    pub closed spec fn spec_local(self) -> Endpoint {
        self.local
    }

    pub closed spec fn spec_remote(self) -> Endpoint {
        self.remote
    }

    pub fn handle(&self) -> (r: Handle)
        ensures
            r == self.spec_handle(),
    {
        self.handle
    }

    pub fn endpoint_local(&self) -> (r: &Endpoint)
        ensures
            *r == self.spec_local(),
    {
        &self.local
    }

    pub fn endpoint_remote(&self) -> (r: &Endpoint)
        ensures
            *r == self.spec_remote(),
    {
        &self.remote
    }

    /// The connection on socket `handle` between `local` and `remote`.
    pub fn new(handle: Handle, local: Endpoint, remote: Endpoint, notify: R) -> (r: TcpConnection<R>)
        ensures
            r.spec_handle() == handle,
            r.spec_local() == local,
            r.spec_remote() == remote,
    {
        TcpConnection { handle, local, remote, notify }
    }

    /// Sends `data`: nothing is sent yet, and the connection is unchanged.
    pub fn send(&mut self, data: &[u8])
        ensures
            *final(self) == *old(self),
    {
        let _ = data;
    }

    /// Closes the connection: nothing is done yet.
    pub fn close(self) {
    }
}

/// A listening socket bound to an endpoint, with the socket and the
/// buffers of the overlapped accept that waits for the next connection.
pub struct TcpListener<C> {
    socket: Socket,
    endpoint: Endpoint,
    notify: C,
    accept: Socket,
    addrs: [u8; ADDRS_BUFFER_BYTES],
    event: EventData,
}

impl<C> TcpListener<C> {
    pub closed spec fn listen_socket(self) -> Socket {
        self.socket
    }

    pub closed spec fn accept_socket(self) -> Socket {
        self.accept
    }

    pub closed spec fn spec_endpoint(self) -> Endpoint {
        self.endpoint
    }

    pub closed spec fn notify_object(self) -> C {
        self.notify
    }

    /// The buffer that an accept fills with the two addresses.
    pub closed spec fn accept_addrs(self) -> [u8; ADDRS_BUFFER_BYTES] {
        self.addrs
    }

    pub closed spec fn overlapped(self) -> Overlapped {
        self.event.overlapped
    }

    pub closed spec fn event_offset(self) -> usize {
        self.event.offset
    }

    /// `self` has the sockets, endpoint and client object of `other`.
    pub open spec fn same_identity(self, other: Self) -> bool {
        &&& self.listen_socket() == other.listen_socket()
        &&& self.accept_socket() == other.accept_socket()
        &&& self.spec_endpoint() == other.spec_endpoint()
        &&& self.notify_object() == other.notify_object()
    }

    pub fn endpoint(&self) -> (r: &Endpoint)
        ensures
            *r == self.spec_endpoint(),
    {
        &self.endpoint
    }

    /// The record of the listener's overlapped accept.
    pub fn event(&self) -> (r: &EventData)
        ensures
            r.overlapped == self.overlapped(),
            r.offset == self.event_offset(),
    {
        &self.event
    }

    /// The accept buffer.
    pub fn accept_buffer(&self) -> (r: &[u8; ADDRS_BUFFER_BYTES])
        ensures
            *r == self.accept_addrs(),
    {
        &self.addrs
    }

    /// The raw handle of the listening socket.
    pub fn listen_handle(&self) -> (r: Handle)
        ensures
            r == self.listen_socket().raw(),
    {
        self.socket.handle()
    }

    /// The raw handle of the socket that the next connection is accepted into.
    pub fn accept_handle(&self) -> (r: Handle)
        ensures
            r == self.accept_socket().raw(),
    {
        self.accept.handle()
    }

    /// Marks the listening socket closed. Returns the handle that the caller
    /// must close, where it was open.
    pub fn close(&mut self) -> (r: Option<Handle>)
        ensures
            final(self).listen_socket().raw() == INVALID_SOCKET,
            final(self).accept_socket() == old(self).accept_socket(),
            final(self).spec_endpoint() == old(self).spec_endpoint(),
            final(self).notify_object() == old(self).notify_object(),
            final(self).accept_addrs() == old(self).accept_addrs(),
            final(self).overlapped() == old(self).overlapped(),
            final(self).event_offset() == old(self).event_offset(),
            old(self).listen_socket().valid() ==> r == Some(old(self).listen_socket().raw()),
            !old(self).listen_socket().valid() ==> r is None && *final(self) == *old(self),
    {
        self.socket.close()
    }

    /// The sockets of the listener that are open, listening socket first.
    pub open spec fn open_sockets(self) -> Seq<Handle> {
        (if self.listen_socket().valid() { seq![self.listen_socket().raw()] } else { seq![] })
            + (if self.accept_socket().valid() { seq![self.accept_socket().raw()] } else { seq![] })
    }

    /// Marks both sockets closed, as dropping the listener does. Returns the
    /// handles that the caller must close: those that were open, listening
    /// socket first.
    pub fn release(&mut self) -> (r: Vec<Handle>)
        ensures
            r@ == old(self).open_sockets(),
            final(self).listen_socket().raw() == INVALID_SOCKET,
            final(self).accept_socket().raw() == INVALID_SOCKET,
            final(self).spec_endpoint() == old(self).spec_endpoint(),
            final(self).notify_object() == old(self).notify_object(),
            final(self).accept_addrs() == old(self).accept_addrs(),
            final(self).overlapped() == old(self).overlapped(),
            final(self).event_offset() == old(self).event_offset(),
    {
        let ghost pre = *self;
        let mut close: Vec<Handle> = Vec::new();
        if let Some(h) = self.socket.close() {
            close.push(h);
        }
        assert(close@ =~= (if pre.listen_socket().valid() { seq![pre.listen_socket().raw()] } else { seq![] }));
        if let Some(h) = self.accept.close() {
            close.push(h);
        }
        assert(close@ =~= pre.open_sockets());
        close
    }

    /// Accepts a connection: nothing is done yet.
    pub fn connect(&mut self)
        ensures
            *final(self) == *old(self),
    {
    }

    /// The accept buffer, for the system to fill.
    pub fn addrs_mut(&mut self) -> (r: &mut [u8; ADDRS_BUFFER_BYTES])
        ensures
            *r == old(self).accept_addrs(),
            final(self).accept_addrs() == *final(r),
            final(self).same_identity(*old(self)),
            final(self).overlapped() == old(self).overlapped(),
            final(self).event_offset() == old(self).event_offset(),
    {
        &mut self.addrs
    }

    /// The overlapped record of the accept, for the system to fill.
    pub fn overlapped_mut(&mut self) -> (r: &mut Overlapped)
        ensures
            *r == old(self).overlapped(),
            final(self).overlapped() == *final(r),
            final(self).same_identity(*old(self)),
            final(self).accept_addrs() == old(self).accept_addrs(),
            final(self).event_offset() == old(self).event_offset(),
    {
        &mut self.event.overlapped
    }

    /// Clears the accept buffer and the overlapped record before an accept
    /// is started.
    fn reset_accept_buffers(&mut self)
        ensures
            final(self).accept_socket() == old(self).accept_socket(),
            final(self).listen_socket() == old(self).listen_socket(),
            final(self).spec_endpoint() == old(self).spec_endpoint(),
            final(self).notify_object() == old(self).notify_object(),
            final(self).event_offset() == old(self).event_offset(),
            final(self).overlapped().is_zeroed(),
            all_zero(final(self).accept_addrs()),
    {
        self.event.overlapped = Overlapped::new();
        let mut i: usize = 0;
        while i < ADDRS_BUFFER_BYTES
            invariant
                i <= ADDRS_BUFFER_BYTES,
                forall|j: int| 0 <= j < i ==> self.addrs@[j] == 0,
                self.accept == old(self).accept,
                self.socket == old(self).socket,
                self.endpoint == old(self).endpoint,
                self.notify == old(self).notify,
                self.event.offset == old(self).event.offset,
                self.event.overlapped.is_zeroed(),
            decreases ADDRS_BUFFER_BYTES - i,
        {
            self.addrs[i] = 0;
            i = i + 1;
        }
    }
}

impl<C> EventNotify for TcpListener<C> {
    /// A completion of the listener's accept: nothing is done with it yet.
    fn on_app_event(&mut self, app: Rc<App>) {
        let _ = app;
    }
}

/// Every byte of the accept buffer is zero.
pub open spec fn all_zero(addrs: [u8; ADDRS_BUFFER_BYTES]) -> bool {
    forall|i: int| 0 <= i < ADDRS_BUFFER_BYTES ==> addrs@[i] == 0
}


/// The address record for `endpoint`.
pub open spec fn sockaddr_of(endpoint: Endpoint) -> SockAddrIn {
    match endpoint {
        Endpoint::V4(v4) => {
            let b = v4.spec_address().bytes();
            SockAddrIn {
                sin_family: AF_INET as i16,
                sin_port: swap16(v4.spec_port()),
                sin_addr: InAddr { s_b1: b[0], s_b2: b[1], s_b3: b[2], s_b4: b[3] },
                sa_zero: [0u8, 0u8, 0u8, 0u8, 0u8, 0u8, 0u8, 0u8],
            }
        },
    }
}


/// Where the setup of a listener stands.
#[derive(Clone, Copy, Debug, PartialEq, Eq, Structural)]
pub enum SetupPhase {
    /// Waiting for the listening socket to be created.
    CreatingSocket,
    /// Waiting for the bind of the listening socket.
    Binding,
    /// Waiting for the listen call.
    Listening,
    /// Waiting for the link of the listening socket to the completion port.
    Linking,
    /// Waiting for the socket that the next connection is accepted into.
    CreatingAcceptSocket,
    /// Waiting for the overlapped accept to be started.
    Accepting,
    /// The listener is set up and waits for connections.
    Ready,
    /// The setup failed with `error`.
    Failed { error: u32 },
}

/// What a system call of the setup returned.
#[derive(Clone, Copy, Debug, PartialEq, Eq, Structural)]
pub enum SetupEvent {
    /// `socket` returned `handle`; `error` is the error code reported right after.
    SocketCreated { handle: Handle, error: u32 },
    /// `bind` or `listen` returned `result`; `error` is the error code reported right after.
    CallReturned { result: i32, error: u32 },
    /// Linking to the completion port returned `returned`.
    PortLinked { returned: Handle },
    /// The overlapped accept was started; `error` is the error code reported right after.
    AcceptIssued { error: u32 },
}

/// The system call that the setup asks for next, or its end.
#[derive(Debug)]
pub enum SetupAction {
    /// Create a socket of address family `family`, type `kind` and protocol `protocol`.
    CreateSocket { family: i32, kind: i32, protocol: i32 },
    /// Bind `socket` to `address`, a record of `length` bytes.
    Bind { socket: Handle, address: SockAddrIn, length: i32 },
    /// Make `socket` listen with room for `backlog` pending connections.
    Listen { socket: Handle, backlog: i32 },
    /// Link `socket` to the completion port `port` under completion key
    /// `key`, allowing `threads` concurrent threads.
    Link { socket: Handle, port: Handle, key: u64, threads: u32 },
    /// Start an overlapped accept on `listen` into `accept`, receiving
    /// `receive_bytes` of data and `local_bytes` and `remote_bytes` of room
    /// for each address, in the listener's accept buffer and overlapped record.
    Accept { listen: Handle, accept: Handle, receive_bytes: u32, local_bytes: u32, remote_bytes: u32 },
    /// The listener is set up.
    Done,
    /// The setup failed with `error`: close each handle of `close`, in order.
    Fail { error: u32, close: Vec<Handle> },
    /// The event does not belong to the current phase and changed nothing.
    Ignored,
}

/// A listener being set up, linked to a completion port.
pub struct ListenerSetup<C> {
    phase: SetupPhase,
    port: Handle,
    listener: TcpListener<C>,
}

impl<C> ListenerSetup<C> {
    pub closed spec fn phase(self) -> SetupPhase {
        self.phase
    }

    /// The completion port that the listener is linked to.
    pub closed spec fn port(self) -> Handle {
        self.port
    }

    /// The listener under construction.
    pub closed spec fn listener(self) -> TcpListener<C> {
        self.listener
    }

    pub open spec fn listen_handle(self) -> Handle {
        self.listener().listen_socket().raw()
    }

    pub open spec fn accept_handle(self) -> Handle {
        self.listener().accept_socket().raw()
    }

    /// The sockets that are open, listening socket first.
    pub open spec fn open_sockets(self) -> Seq<Handle> {
        self.listener().open_sockets()
    }

    /// The phase says which sockets are open.
    pub open spec fn wf(self) -> bool {
        let l = self.listener().listen_socket().valid();
        let a = self.listener().accept_socket().valid();
        match self.phase() {
            SetupPhase::CreatingSocket => !l && !a,
            SetupPhase::Binding => l && !a,
            SetupPhase::Listening => l && !a,
            SetupPhase::Linking => l && !a,
            SetupPhase::CreatingAcceptSocket => l && !a,
            SetupPhase::Accepting => l && a,
            SetupPhase::Ready => l && a,
            SetupPhase::Failed { .. } => !l && !a,
        }
    }

    /// The setup has ended, well or badly.
    pub open spec fn finished(self) -> bool {
        self.phase() is Ready || self.phase() is Failed
    }

    pub fn phase_now(&self) -> (r: SetupPhase)
        ensures
            r == self.phase(),
    {
        self.phase
    }

    pub fn is_finished(&self) -> (r: bool)
        ensures
            r == self.finished(),
    {
        match self.phase {
            SetupPhase::Ready => true,
            SetupPhase::Failed { .. } => true,
            _ => false,
        }
    }

    /// The listener under construction.
    pub fn listener_ref(&self) -> (r: &TcpListener<C>)
        ensures
            *r == self.listener(),
    {
        &self.listener
    }

    /// Records the byte offset of the listener's event record inside the listener.
    pub fn set_event_offset(&mut self, offset: usize)
        ensures
            final(self).phase() == old(self).phase(),
            final(self).port() == old(self).port(),
            final(self).listener().same_identity(old(self).listener()),
            final(self).listener().accept_addrs() == old(self).listener().accept_addrs(),
            final(self).listener().overlapped() == old(self).listener().overlapped(),
            final(self).listener().event_offset() == offset,
    {
        self.listener.event.offset = offset;
    }
}


/// `action` asks for a TCP socket over IPv4.
pub open spec fn creates_tcp_socket(action: SetupAction) -> bool {
    action matches SetupAction::CreateSocket { family, kind, protocol }
        && family == AF_INET && kind == SOCK_STREAM && protocol == IPPROTO_TCP
}

/// `post` keeps the port, endpoint, client object, buffers and event
/// record of `pre`.
pub open spec fn keeps_record<C>(pre: ListenerSetup<C>, post: ListenerSetup<C>) -> bool {
    &&& post.port() == pre.port()
    &&& post.listener().spec_endpoint() == pre.listener().spec_endpoint()
    &&& post.listener().notify_object() == pre.listener().notify_object()
    &&& post.listener().event_offset() == pre.listener().event_offset()
}

/// `post` is `pre` moved to `phase` with the sockets `listen` and `accept`,
/// buffers untouched.
pub open spec fn moved<C>(pre: ListenerSetup<C>, post: ListenerSetup<C>, phase: SetupPhase, listen: Socket, accept: Socket) -> bool {
    &&& keeps_record(pre, post)
    &&& post.phase() == phase
    &&& post.listener().listen_socket() == listen
    &&& post.listener().accept_socket() == accept
    &&& post.listener().accept_addrs() == pre.listener().accept_addrs()
    &&& post.listener().overlapped() == pre.listener().overlapped()
}

/// The setup failed with `error`, all its sockets marked closed, and
/// `action` asks for `error` and for the handles `close` to be closed.
pub open spec fn failed<C>(pre: ListenerSetup<C>, post: ListenerSetup<C>, action: SetupAction, error: u32, close: Seq<Handle>) -> bool {
    &&& keeps_record(pre, post)
    &&& post.phase() == (SetupPhase::Failed { error })
    &&& post.listener().listen_socket().raw() == INVALID_SOCKET
    &&& post.listener().accept_socket().raw() == INVALID_SOCKET
    &&& post.listener().accept_addrs() == pre.listener().accept_addrs()
    &&& post.listener().overlapped() == pre.listener().overlapped()
    &&& (action matches SetupAction::Fail { error: e, close: c } && e == error && c@ == close)
}

/// The event does not belong to the phase: nothing changed.
pub open spec fn ignored<C>(pre: ListenerSetup<C>, post: ListenerSetup<C>, action: SetupAction) -> bool {
    post == pre && action is Ignored
}

/// One step of the setup: from `pre`, on `event`, the setup becomes `post`
/// and asks for `action`.
pub open spec fn stepped<C>(pre: ListenerSetup<C>, post: ListenerSetup<C>, event: SetupEvent, action: SetupAction) -> bool {
    let listen = pre.listener().listen_socket();
    let accept = pre.listener().accept_socket();
    match pre.phase() {
        SetupPhase::CreatingSocket => match event {
            SetupEvent::SocketCreated { handle, error } =>
                if handle == INVALID_SOCKET {
                    failed(pre, post, action, error, seq![])
                } else {
                    &&& moved(pre, post, SetupPhase::Binding, post.listener().listen_socket(), accept)
                    &&& post.listen_handle() == handle
                    &&& (action matches SetupAction::Bind { socket, address, length } && socket == handle
                        && length == ADDR_BYTES
                        && address == sockaddr_of(pre.listener().spec_endpoint()))
                },
            _ => ignored(pre, post, action),
        },
        SetupPhase::Binding => match event {
            SetupEvent::CallReturned { result, error } =>
                if result != 0 {
                    failed(pre, post, action, error, seq![pre.listen_handle()])
                } else {
                    &&& moved(pre, post, SetupPhase::Listening, listen, accept)
                    &&& (action matches SetupAction::Listen { socket, backlog } && socket == pre.listen_handle()
                        && backlog == SOMAXCONN)
                },
            _ => ignored(pre, post, action),
        },
        SetupPhase::Listening => match event {
            SetupEvent::CallReturned { result, error } =>
                if result != 0 {
                    failed(pre, post, action, error, seq![pre.listen_handle()])
                } else {
                    &&& moved(pre, post, SetupPhase::Linking, listen, accept)
                    &&& (action matches SetupAction::Link { socket, port, key, threads } && socket == pre.listen_handle()
                        && key == 0 && threads == 0
                        && port == pre.port())
                },
            _ => ignored(pre, post, action),
        },
        SetupPhase::Linking => match event {
            SetupEvent::PortLinked { returned } =>
                if returned != pre.port() {
                    failed(pre, post, action, 0, seq![pre.listen_handle()])
                } else {
                    moved(pre, post, SetupPhase::CreatingAcceptSocket, listen, accept) && creates_tcp_socket(action)
                },
            _ => ignored(pre, post, action),
        },
        SetupPhase::CreatingAcceptSocket => match event {
            SetupEvent::SocketCreated { handle, error } =>
                if handle == INVALID_SOCKET {
                    failed(pre, post, action, error, seq![pre.listen_handle()])
                } else {
                    &&& keeps_record(pre, post)
                    &&& post.phase() == SetupPhase::Accepting
                    &&& post.listener().listen_socket() == listen
                    &&& post.accept_handle() == handle
                    &&& all_zero(post.listener().accept_addrs())
                    &&& post.listener().overlapped().is_zeroed()
                    &&& (action matches SetupAction::Accept { listen: l, accept: a, receive_bytes, local_bytes, remote_bytes }
                        && l == pre.listen_handle() && a == handle && receive_bytes == 0
                        && local_bytes == ADDR_BUFFER_BYTES && remote_bytes == ADDR_BUFFER_BYTES)
                },
            _ => ignored(pre, post, action),
        },
        SetupPhase::Accepting => match event {
            SetupEvent::AcceptIssued { error } =>
                if error == ERROR_IO_PENDING {
                    moved(pre, post, SetupPhase::Ready, listen, accept) && action is Done
                } else {
                    failed(pre, post, action, 0, seq![pre.listen_handle(), pre.accept_handle()])
                },
            _ => ignored(pre, post, action),
        },
        SetupPhase::Ready => ignored(pre, post, action),
        SetupPhase::Failed { .. } => ignored(pre, post, action),
    }
}

impl<C: TcpConnectNotify> TcpListener<C> {
    /// Starts setting up a listener on `endpoint` for `app`: nothing is open
    /// yet, the buffers are clear, and the first call to make is the creation
    /// of the listening socket.
    pub fn new(app: &App, endpoint: Endpoint, notify: C) -> (r: (ListenerSetup<C>, SetupAction))
        ensures
            r.0.wf(),
            r.0.phase() == SetupPhase::CreatingSocket,
            r.0.port() == app.port(),
            r.0.listener().spec_endpoint() == endpoint,
            r.0.listener().notify_object() == notify,
            !r.0.listener().listen_socket().valid(),
            !r.0.listener().accept_socket().valid(),
            all_zero(r.0.listener().accept_addrs()),
            r.0.listener().overlapped().is_zeroed(),
            r.0.listener().event_offset() == 0,
            creates_tcp_socket(r.1),
    {
        let listener = TcpListener {
            socket: Socket::new_invalid(),
            endpoint,
            notify,
            accept: Socket::new_invalid(),
            addrs: [0u8, 0u8, 0u8, 0u8, 0u8, 0u8, 0u8, 0u8, 0u8, 0u8, 0u8, 0u8, 0u8, 0u8, 0u8, 0u8,
                0u8, 0u8, 0u8, 0u8, 0u8, 0u8, 0u8, 0u8, 0u8, 0u8, 0u8, 0u8, 0u8, 0u8, 0u8, 0u8,
                0u8, 0u8, 0u8, 0u8, 0u8, 0u8, 0u8, 0u8, 0u8, 0u8, 0u8, 0u8, 0u8, 0u8, 0u8, 0u8,
                0u8, 0u8, 0u8, 0u8, 0u8, 0u8, 0u8, 0u8, 0u8, 0u8, 0u8, 0u8, 0u8, 0u8, 0u8, 0u8],
            event: EventData::new(),
        };
        let setup = ListenerSetup { phase: SetupPhase::CreatingSocket, port: app.port_handle(), listener };
        (setup, SetupAction::CreateSocket { family: AF_INET, kind: SOCK_STREAM, protocol: IPPROTO_TCP })
    }
}

impl<C> ListenerSetup<C> {
    /// Ends the setup with `error`: marks both sockets closed and asks for
    /// the open ones to be closed, listening socket first.
    fn fail(&mut self, error: u32) -> (action: SetupAction)
        ensures
            failed(*old(self), *final(self), action, error, old(self).open_sockets()),
    {
        let close = self.listener.release();
        self.phase = SetupPhase::Failed { error };
        SetupAction::Fail { error, close }
    }

    /// Takes what the last system call returned, and answers with the next
    /// call to make, or with the end of the setup.
    pub fn step(&mut self, event: SetupEvent) -> (action: SetupAction)
        requires
            old(self).wf(),
        ensures
            final(self).wf(),
            stepped(*old(self), *final(self), event, action),
    {
        proof {
            lemma_open_sockets_by_phase(*old(self));
        }
        match self.phase {
            SetupPhase::CreatingSocket => match event {
                SetupEvent::SocketCreated { handle, error } => match Socket::new(handle, error) {
                    Err(code) => self.fail(code),
                    Ok(socket) => {
                        self.listener.socket = socket;
                        self.phase = SetupPhase::Binding;
                        let address = Socket::bind_address(&self.listener.endpoint);
                        SetupAction::Bind { socket: handle, address, length: ADDR_BYTES as i32 }
                    },
                },
                _ => SetupAction::Ignored,
            },
            SetupPhase::Binding => match event {
                SetupEvent::CallReturned { result, error } => match check_status(result, error) {
                    Err(code) => self.fail(code),
                    Ok(()) => {
                        self.phase = SetupPhase::Listening;
                        SetupAction::Listen { socket: self.listener.socket.handle(), backlog: SOMAXCONN }
                    },
                },
                _ => SetupAction::Ignored,
            },
            SetupPhase::Listening => match event {
                SetupEvent::CallReturned { result, error } => match check_status(result, error) {
                    Err(code) => self.fail(code),
                    Ok(()) => {
                        self.phase = SetupPhase::Linking;
                        SetupAction::Link { socket: self.listener.socket.handle(), port: self.port, key: 0, threads: 0 }
                    },
                },
                _ => SetupAction::Ignored,
            },
            SetupPhase::Linking => match event {
                SetupEvent::PortLinked { returned } => {
                    if returned != self.port {
                        self.fail(0)
                    } else {
                        self.phase = SetupPhase::CreatingAcceptSocket;
                        SetupAction::CreateSocket { family: AF_INET, kind: SOCK_STREAM, protocol: IPPROTO_TCP }
                    }
                },
                _ => SetupAction::Ignored,
            },
            SetupPhase::CreatingAcceptSocket => match event {
                SetupEvent::SocketCreated { handle, error } => match Socket::new(handle, error) {
                    Err(code) => self.fail(code),
                    Ok(socket) => {
                        self.listener.accept = socket;
                        self.listener.reset_accept_buffers();
                        self.phase = SetupPhase::Accepting;
                        SetupAction::Accept {
                            listen: self.listener.socket.handle(),
                            accept: handle,
                            receive_bytes: 0,
                            local_bytes: ADDR_BUFFER_BYTES as u32,
                            remote_bytes: ADDR_BUFFER_BYTES as u32,
                        }
                    },
                },
                _ => SetupAction::Ignored,
            },
            SetupPhase::Accepting => match event {
                SetupEvent::AcceptIssued { error } => {
                    if error == ERROR_IO_PENDING {
                        self.phase = SetupPhase::Ready;
                        SetupAction::Done
                    } else {
                        self.fail(0)
                    }
                },
                _ => SetupAction::Ignored,
            },
            SetupPhase::Ready => SetupAction::Ignored,
            SetupPhase::Failed { .. } => SetupAction::Ignored,
        }
    }

    /// The listener, where the setup is done, or the error it failed with.
    pub fn finish(self) -> (r: Result<TcpListener<C>>)
        requires
            self.finished(),
        ensures
            self.phase() is Ready ==> r == Ok::<TcpListener<C>, u32>(self.listener()),
            self.phase() matches SetupPhase::Failed { error } ==> r == Err::<TcpListener<C>, u32>(error),
    {
        match self.phase {
            SetupPhase::Failed { error } => Err(error),
            _ => Ok(self.listener),
        }
    }
}


/// Which sockets a well-formed setup has open, listening socket first:
/// none before the listening socket is created and after a failure, the
/// listening socket until the accept socket is created, then both.
pub proof fn lemma_open_sockets_by_phase<C>(s: ListenerSetup<C>)
    requires
        s.wf(),
    ensures
        s.phase() is CreatingSocket || s.phase() is Failed ==> s.open_sockets() == Seq::<Handle>::empty(),
        s.phase() is Binding || s.phase() is Listening || s.phase() is Linking || s.phase() is CreatingAcceptSocket
            ==> s.open_sockets() == seq![s.listen_handle()],
        s.phase() is Accepting || s.phase() is Ready ==> s.open_sockets() == seq![s.listen_handle(), s.accept_handle()],
{
    let l = s.listener().listen_socket().valid();
    let a = s.listener().accept_socket().valid();
    if !l && !a {
        assert(s.open_sockets() =~= seq![]);
    } else if l && !a {
        assert(s.open_sockets() =~= seq![s.listen_handle()]);
    } else if l && a {
        assert(s.open_sockets() =~= seq![s.listen_handle(), s.accept_handle()]);
    }
}

/// A step that fails asks for exactly the sockets that were open to be
/// closed, listening socket first, and leaves no socket open.
pub proof fn lemma_failure_closes_open_sockets<C>(
    pre: ListenerSetup<C>,
    post: ListenerSetup<C>,
    event: SetupEvent,
    action: SetupAction,
)
    requires
        pre.wf(),
        stepped(pre, post, event, action),
        action is Fail,
    ensures
        action->close@ == pre.open_sockets(),
        post.open_sockets() == Seq::<Handle>::empty(),
        post.phase() is Failed,
{
    lemma_open_sockets_by_phase(pre);
    assert(post.open_sockets() =~= Seq::<Handle>::empty());
}

/// The setup becomes ready only when the overlapped accept was started and
/// is pending, with both sockets open.
pub proof fn lemma_ready_only_after_pending_accept<C>(
    pre: ListenerSetup<C>,
    post: ListenerSetup<C>,
    event: SetupEvent,
    action: SetupAction,
)
    requires
        pre.wf(),
        stepped(pre, post, event, action),
        post.phase() is Ready,
        !(pre.phase() is Ready),
    ensures
        pre.phase() == SetupPhase::Accepting,
        event == (SetupEvent::AcceptIssued { error: ERROR_IO_PENDING }),
        post.listener().listen_socket().valid(),
        post.listener().accept_socket().valid(),
        action is Done,
{
}

/// Once the setup has ended, no event changes it.
pub proof fn lemma_finished_setup_is_final<C>(
    pre: ListenerSetup<C>,
    post: ListenerSetup<C>,
    event: SetupEvent,
    action: SetupAction,
)
    requires
        stepped(pre, post, event, action),
        pre.finished(),
    ensures
        post == pre,
        action is Ignored,
{
}

/// Where every call succeeds, the six steps from a new setup end with the
/// listener ready: listening on the socket created first, bound to the
/// sockaddr of its endpoint, linked to its port, and accepting into the
/// socket created second.
pub proof fn lemma_successful_setup<C>(
    s0: ListenerSetup<C>, s1: ListenerSetup<C>, s2: ListenerSetup<C>, s3: ListenerSetup<C>,
    s4: ListenerSetup<C>, s5: ListenerSetup<C>, s6: ListenerSetup<C>,
    a1: SetupAction, a2: SetupAction, a3: SetupAction, a4: SetupAction, a5: SetupAction, a6: SetupAction,
    listen: Handle, accept: Handle, e1: u32, e2: u32, e3: u32, e5: u32,
)
    requires
        s0.wf(),
        s0.phase() == SetupPhase::CreatingSocket,
        listen != INVALID_SOCKET,
        accept != INVALID_SOCKET,
        stepped(s0, s1, SetupEvent::SocketCreated { handle: listen, error: e1 }, a1),
        stepped(s1, s2, SetupEvent::CallReturned { result: 0, error: e2 }, a2),
        stepped(s2, s3, SetupEvent::CallReturned { result: 0, error: e3 }, a3),
        stepped(s3, s4, SetupEvent::PortLinked { returned: s0.port() }, a4),
        stepped(s4, s5, SetupEvent::SocketCreated { handle: accept, error: e5 }, a5),
        stepped(s5, s6, SetupEvent::AcceptIssued { error: ERROR_IO_PENDING }, a6),
    ensures
        a1 matches SetupAction::Bind { socket, address, .. } && socket == listen
            && address == sockaddr_of(s0.listener().spec_endpoint()),
        a2 matches SetupAction::Listen { socket, backlog } && socket == listen && backlog == SOMAXCONN,
        a3 matches SetupAction::Link { socket, port, .. } && socket == listen && port == s0.port(),
        creates_tcp_socket(a4),
        a5 matches SetupAction::Accept { listen: l, accept: a, .. } && l == listen && a == accept,
        a6 is Done,
        s6.phase() == SetupPhase::Ready,
        s6.listen_handle() == listen,
        s6.accept_handle() == accept,
        s6.port() == s0.port(),
        s6.listener().spec_endpoint() == s0.listener().spec_endpoint(),
{
}

/// Binding to the endpoint `a.b.c.d:port` uses the address record of the
/// IPv4 family whose address bytes are `a`, `b`, `c`, `d` in that order,
/// whose port holds the port's high byte first in memory and its low byte
/// second, and whose padding is zero.
pub proof fn lemma_bound_address_is_endpoint(v4: EndpointV4, a: u8, b: u8, c: u8, d: u8, port: u16)
    requires
        v4.spec_address().bytes() == seq![a, b, c, d],
        v4.spec_port() == port,
    ensures
        sockaddr_of(Endpoint::V4(v4)).sin_family == AF_INET,
        sockaddr_of(Endpoint::V4(v4)).sin_addr == (InAddr { s_b1: a, s_b2: b, s_b3: c, s_b4: d }),
        sockaddr_of(Endpoint::V4(v4)).sin_port % 256 == port / 256,
        sockaddr_of(Endpoint::V4(v4)).sin_port / 256 == port % 256,
        forall|i: int| 0 <= i < 8 ==> sockaddr_of(Endpoint::V4(v4)).sa_zero@[i] == 0,
{
    assert(seq![a, b, c, d][0] == a);
    assert(seq![a, b, c, d][1] == b);
    assert(seq![a, b, c, d][2] == c);
    assert(seq![a, b, c, d][3] == d);
}

/// Exchanging the bytes of a port twice gives the port back.
pub proof fn lemma_swap16_involutive(p: u16)
    ensures
        swap16(swap16(p)) == p,
{
}

/// The bound port is in network byte order: its low byte, which comes first
/// in memory, is the port's high byte, and its high byte is the port's low byte.
pub proof fn lemma_bound_port_is_big_endian(endpoint: Endpoint)
    ensures
        sockaddr_of(endpoint).sin_port % 256 == (match endpoint { Endpoint::V4(v4) => v4.spec_port() }) / 256,
        sockaddr_of(endpoint).sin_port / 256 == (match endpoint { Endpoint::V4(v4) => v4.spec_port() }) % 256,
{
}

} // verus!
