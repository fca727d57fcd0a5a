use std::rc::Rc;

use frio::app::{AppRunner, Cleanup, EventData, RunAction, RunEvent, RunPhase, Task};
use frio::net::endpoint::{Endpoint, EndpointV4, IpAddrV4};
use frio::net::tcp::{
    check_status, get_error, ListenerSetup, SetupAction, SetupEvent, SetupPhase, Socket,
    ADDRS_BUFFER_BYTES, ADDR_BUFFER_BYTES,
};
use frio::net::{initialize, make_word, socket_version, TcpConnectNotify, TcpConnection, TcpListener, TcpReceiveNotify};
use frio::win32::{Overlapped, AF_INET, ERROR_IO_PENDING, INFINITE, INVALID_HANDLE_VALUE, INVALID_SOCKET, IPPROTO_TCP, SOCK_STREAM, SOMAXCONN};
use frio::{App, Context};

struct Receiver {
    received: usize,
}

impl TcpReceiveNotify for Receiver {
    fn on_tcp_receive(&mut self, data: &[u8], _conn: &mut TcpConnection<Self>) {
        self.received += data.len();
    }
}

struct Acceptor;

impl TcpConnectNotify for Acceptor {
    type Receiver = Receiver;

    fn on_tcp_connect(&mut self) -> Receiver {
        Receiver { received: 0 }
    }
}

struct Counter;

impl Cleanup for Counter {
    fn cleanup_start(&mut self) {}
}

impl Task for Counter {
    fn task_run(&mut self) {}
}

const PORT: u64 = 0x40;
const LISTEN: u64 = 0x100;
const ACCEPT: u64 = 0x104;

fn endpoint() -> Endpoint {
    Endpoint::V4(EndpointV4::new(IpAddrV4::new(127, 0, 0, 1), 0x1f90))
}

fn app() -> App {
    App::open(PORT).unwrap()
}

fn new_setup() -> ListenerSetup<Acceptor> {
    let (setup, action) = TcpListener::new(&app(), endpoint(), Acceptor);
    assert!(matches!(
        action,
        SetupAction::CreateSocket { family: AF_INET, kind: SOCK_STREAM, protocol: IPPROTO_TCP }
    ));
    setup
}

fn close_list(action: SetupAction) -> (u32, Vec<u64>) {
    match action {
        SetupAction::Fail { error, close } => (error, close),
        other => panic!("expected a failure, got {:?}", other),
    }
}

#[test]
fn overlapped_new_is_zero() {
    let o = Overlapped::new();
    assert_eq!(o, Overlapped { internal: 0, internal_high: 0, offset: 0, h_event: 0 });
}

#[test]
fn event_data_new_is_zero() {
    let e = EventData::new();
    assert_eq!(e.overlapped, Overlapped::new());
    assert_eq!(e.offset, 0);
}

#[test]
fn app_open_refuses_null_port() {
    assert!(App::open(0).is_none());
    let a = App::open(7).unwrap();
    assert_eq!(a.port_handle(), 7);
}

#[test]
fn app_link_succeeds_only_on_own_port() {
    let a = app();
    assert!(a.link_succeeded(PORT));
    assert!(!a.link_succeeded(PORT + 1));
    assert!(!a.link_succeeded(0));
}

#[test]
fn app_registration_keeps_port() {
    let mut a = app();
    a.cleanup_register(Rc::new(Counter));
    a.task_queue(Box::new(Counter));
    assert_eq!(a.port_handle(), PORT);
    a.stop();
}

#[test]
fn run_starts_waits_and_aborts() {
    let (mut run, first) = AppRunner::new();
    assert!(matches!(
        first,
        RunAction::OpenPort { file: INVALID_HANDLE_VALUE, existing: 0, key: 0, threads: 0 }
    ));
    assert_eq!(run.phase_now(), RunPhase::Opening);
    assert!(matches!(run.step(RunEvent::Dequeued { success: true }), RunAction::Ignored));
    match run.step(RunEvent::PortOpened { port: PORT }) {
        RunAction::Start { app } => assert_eq!(app.port_handle(), PORT),
        _ => panic!("expected start"),
    }
    assert_eq!(run.phase_now(), RunPhase::Starting { port: PORT });
    assert!(matches!(run.step(RunEvent::Dequeued { success: true }), RunAction::Ignored));
    assert!(matches!(run.step(RunEvent::Started), RunAction::Wait { port: PORT, timeout: INFINITE }));
    assert_eq!(run.phase_now(), RunPhase::Running { port: PORT });
    assert!(matches!(run.step(RunEvent::Dequeued { success: true }), RunAction::Wait { port: PORT, timeout: INFINITE }));
    assert!(matches!(run.step(RunEvent::PortOpened { port: 9 }), RunAction::Ignored));
    assert!(matches!(run.step(RunEvent::Started), RunAction::Ignored));
    assert_eq!(run.phase_now(), RunPhase::Running { port: PORT });
    assert!(matches!(run.step(RunEvent::Dequeued { success: false }), RunAction::Abort));
    assert_eq!(run.phase_now(), RunPhase::Stopped);
    assert!(matches!(run.step(RunEvent::Dequeued { success: true }), RunAction::Ignored));
    assert_eq!(run.phase_now(), RunPhase::Stopped);
}

#[test]
fn run_returns_without_port() {
    let (mut run, _) = AppRunner::new();
    assert!(matches!(run.step(RunEvent::PortOpened { port: 0 }), RunAction::Return));
    assert_eq!(run.phase_now(), RunPhase::Stopped);
    assert!(matches!(run.step(RunEvent::PortOpened { port: PORT }), RunAction::Ignored));
}

#[test]
fn cleanup_default_is_complete() {
    let mut c = Counter;
    assert!(c.cleanup_is_complete());
}

#[test]
fn context_follows_initialisation() {
    assert_eq!(Context::new(Ok(())), Ok(Context));
    assert_eq!(Context::new(Err(10093)), Err(10093));
}

#[test]
fn socket_version_is_two_two() {
    assert_eq!(socket_version(), 0x0202);
    assert_eq!(make_word(0x34, 0x12), 0x1234);
    assert_eq!(make_word(0xff, 0xff), 0xffff);
}

#[test]
fn initialize_outcome() {
    assert_eq!(initialize(0, 5), Ok(()));
    assert_eq!(initialize(10091, 10091), Err(10091));
}

#[test]
fn status_and_errors() {
    assert_eq!(check_status(0, 3), Ok(()));
    assert_eq!(check_status(-1, 10048), Err(10048));
    assert_eq!(get_error::<u8>(42), Err(42));
}

#[test]
fn endpoint_parts() {
    let ip = IpAddrV4::new(10, 1, 2, 3);
    assert_eq!(ip.octets(), [10, 1, 2, 3]);
    let e = EndpointV4::new(ip, 443);
    assert_eq!(*e.address(), ip);
    assert_eq!(e.port(), 443);
}

#[test]
fn socket_open_and_close() {
    let invalid = Socket::new_invalid();
    assert!(!invalid.is_valid());
    assert_eq!(invalid.handle(), INVALID_SOCKET);
    assert_eq!(Socket::new(INVALID_SOCKET, 10024).err(), Some(10024));
    let mut s = Socket::new(LISTEN, 0).ok().unwrap();
    assert!(s.is_valid());
    assert_eq!(s.handle(), LISTEN);
    assert_eq!(s.close(), Some(LISTEN));
    assert!(!s.is_valid());
    assert_eq!(s.close(), None);
}

#[test]
fn bind_address_is_network_order() {
    let a = Socket::bind_address(&endpoint());
    assert_eq!(a.sin_family, AF_INET as i16);
    assert_eq!(a.sin_port, 0x901f);
    assert_eq!((a.sin_addr.s_b1, a.sin_addr.s_b2, a.sin_addr.s_b3, a.sin_addr.s_b4), (127, 0, 0, 1));
    assert_eq!(a.sa_zero, [0; 8]);
    assert_eq!(a.sin_port.to_le_bytes(), 0x1f90u16.to_be_bytes());
}

#[test]
fn bind_address_twice_swapped_is_port() {
    let a = Socket::bind_address(&endpoint());
    let again = Socket::bind_address(&Endpoint::V4(EndpointV4::new(IpAddrV4::new(0, 0, 0, 0), a.sin_port)));
    assert_eq!(again.sin_port, 0x1f90);
}

#[test]
fn connection_parts() {
    let local = endpoint();
    let remote = Endpoint::V4(EndpointV4::new(IpAddrV4::new(192, 168, 0, 2), 5000));
    let mut c = TcpConnection::new(77, local, remote, Receiver { received: 0 });
    assert_eq!(c.handle(), 77);
    assert_eq!(*c.endpoint_local(), local);
    assert_eq!(*c.endpoint_remote(), remote);
    c.send(&[1, 2, 3]);
    assert_eq!(c.handle(), 77);
    c.close();
}

#[test]
fn listener_setup_succeeds() {
    let mut setup = new_setup();
    assert_eq!(setup.phase_now(), SetupPhase::CreatingSocket);
    assert!(!setup.is_finished());
    match setup.step(SetupEvent::SocketCreated { handle: LISTEN, error: 0 }) {
        SetupAction::Bind { socket, address, length } => {
            assert_eq!(socket, LISTEN);
            assert_eq!(length, 16);
            assert_eq!(address.sin_port, 0x901f);
        }
        other => panic!("expected bind, got {:?}", other),
    }
    assert!(matches!(
        setup.step(SetupEvent::CallReturned { result: 0, error: 0 }),
        SetupAction::Listen { socket: LISTEN, backlog: SOMAXCONN }
    ));
    assert!(matches!(
        setup.step(SetupEvent::CallReturned { result: 0, error: 0 }),
        SetupAction::Link { socket: LISTEN, port: PORT, key: 0, threads: 0 }
    ));
    assert!(matches!(
        setup.step(SetupEvent::PortLinked { returned: PORT }),
        SetupAction::CreateSocket { family: AF_INET, kind: SOCK_STREAM, protocol: IPPROTO_TCP }
    ));
    assert_eq!(setup.phase_now(), SetupPhase::CreatingAcceptSocket);
    match setup.step(SetupEvent::SocketCreated { handle: ACCEPT, error: 0 }) {
        SetupAction::Accept { listen, accept, receive_bytes, local_bytes, remote_bytes } => {
            assert_eq!((listen, accept, receive_bytes), (LISTEN, ACCEPT, 0));
            assert_eq!(local_bytes as usize, ADDR_BUFFER_BYTES);
            assert_eq!(remote_bytes as usize, ADDR_BUFFER_BYTES);
        }
        other => panic!("expected accept, got {:?}", other),
    }
    assert!(matches!(setup.step(SetupEvent::AcceptIssued { error: ERROR_IO_PENDING }), SetupAction::Done));
    assert!(setup.is_finished());
    assert!(matches!(setup.step(SetupEvent::AcceptIssued { error: 0 }), SetupAction::Ignored));
    let mut listener = setup.finish().ok().unwrap();
    assert_eq!(listener.listen_handle(), LISTEN);
    assert_eq!(listener.accept_handle(), ACCEPT);
    assert_eq!(*listener.endpoint(), endpoint());
    listener.connect();
    assert_eq!(listener.close(), Some(LISTEN));
    assert_eq!(listener.close(), None);
    assert_eq!(listener.accept_handle(), ACCEPT);
    assert_eq!(listener.release(), vec![ACCEPT]);
    assert_eq!(listener.release(), Vec::<u64>::new());
}

#[test]
fn listener_release_closes_both_sockets() {
    let mut setup = new_setup();
    setup.step(SetupEvent::SocketCreated { handle: LISTEN, error: 0 });
    setup.step(SetupEvent::CallReturned { result: 0, error: 0 });
    setup.step(SetupEvent::CallReturned { result: 0, error: 0 });
    setup.step(SetupEvent::PortLinked { returned: PORT });
    setup.step(SetupEvent::SocketCreated { handle: ACCEPT, error: 0 });
    setup.step(SetupEvent::AcceptIssued { error: ERROR_IO_PENDING });
    let mut listener = setup.finish().ok().unwrap();
    assert_eq!(listener.release(), vec![LISTEN, ACCEPT]);
    assert_eq!(listener.listen_handle(), INVALID_SOCKET);
    assert_eq!(listener.accept_handle(), INVALID_SOCKET);
}

#[test]
fn listener_setup_clears_accept_buffers() {
    let mut setup = new_setup();
    setup.set_event_offset(24);
    setup.step(SetupEvent::SocketCreated { handle: LISTEN, error: 0 });
    setup.step(SetupEvent::CallReturned { result: 0, error: 0 });
    setup.step(SetupEvent::CallReturned { result: 0, error: 0 });
    setup.step(SetupEvent::PortLinked { returned: PORT });
    setup.step(SetupEvent::SocketCreated { handle: ACCEPT, error: 0 });
    let l = setup.listener_ref();
    assert_eq!(*l.accept_buffer(), [0u8; ADDRS_BUFFER_BYTES]);
    assert_eq!(l.event().overlapped, Overlapped::new());
    assert_eq!(l.event().offset, 24);
    setup.step(SetupEvent::AcceptIssued { error: ERROR_IO_PENDING });
    let mut listener = setup.finish().ok().unwrap();
    listener.addrs_mut()[5] = 9;
    listener.overlapped_mut().internal = 3;
    assert_eq!(listener.accept_buffer()[5], 9);
    assert_eq!(listener.event().overlapped.internal, 3);
    assert_eq!(listener.event().offset, 24);
    assert_eq!(listener.listen_handle(), LISTEN);
}

#[test]
fn listener_setup_fails_on_socket() {
    let mut setup = new_setup();
    let (error, close) = close_list(setup.step(SetupEvent::SocketCreated { handle: INVALID_SOCKET, error: 10024 }));
    assert_eq!((error, close), (10024, vec![]));
    assert_eq!(setup.phase_now(), SetupPhase::Failed { error: 10024 });
    assert_eq!(setup.finish().err(), Some(10024));
}

#[test]
fn listener_setup_fails_on_bind() {
    let mut setup = new_setup();
    setup.step(SetupEvent::SocketCreated { handle: LISTEN, error: 0 });
    let (error, close) = close_list(setup.step(SetupEvent::CallReturned { result: -1, error: 10048 }));
    assert_eq!((error, close), (10048, vec![LISTEN]));
    assert_eq!(setup.listener_ref().listen_handle(), INVALID_SOCKET);
    assert_eq!(setup.finish().err(), Some(10048));
}

#[test]
fn listener_setup_fails_on_listen() {
    let mut setup = new_setup();
    setup.step(SetupEvent::SocketCreated { handle: LISTEN, error: 0 });
    setup.step(SetupEvent::CallReturned { result: 0, error: 0 });
    let (error, close) = close_list(setup.step(SetupEvent::CallReturned { result: -1, error: 10022 }));
    assert_eq!((error, close), (10022, vec![LISTEN]));
}

#[test]
fn listener_setup_fails_on_link() {
    let mut setup = new_setup();
    setup.step(SetupEvent::SocketCreated { handle: LISTEN, error: 0 });
    setup.step(SetupEvent::CallReturned { result: 0, error: 0 });
    setup.step(SetupEvent::CallReturned { result: 0, error: 0 });
    let (error, close) = close_list(setup.step(SetupEvent::PortLinked { returned: 0 }));
    assert_eq!((error, close), (0, vec![LISTEN]));
    assert_eq!(setup.finish().err(), Some(0));
}

#[test]
fn listener_setup_fails_on_accept_socket() {
    let mut setup = new_setup();
    setup.step(SetupEvent::SocketCreated { handle: LISTEN, error: 0 });
    setup.step(SetupEvent::CallReturned { result: 0, error: 0 });
    setup.step(SetupEvent::CallReturned { result: 0, error: 0 });
    setup.step(SetupEvent::PortLinked { returned: PORT });
    let (error, close) = close_list(setup.step(SetupEvent::SocketCreated { handle: INVALID_SOCKET, error: 10055 }));
    assert_eq!((error, close), (10055, vec![LISTEN]));
}

#[test]
fn listener_setup_fails_on_accept() {
    let mut setup = new_setup();
    setup.step(SetupEvent::SocketCreated { handle: LISTEN, error: 0 });
    setup.step(SetupEvent::CallReturned { result: 0, error: 0 });
    setup.step(SetupEvent::CallReturned { result: 0, error: 0 });
    setup.step(SetupEvent::PortLinked { returned: PORT });
    setup.step(SetupEvent::SocketCreated { handle: ACCEPT, error: 0 });
    let (error, close) = close_list(setup.step(SetupEvent::AcceptIssued { error: 10057 }));
    assert_eq!((error, close), (0, vec![LISTEN, ACCEPT]));
    assert_eq!(setup.listener_ref().accept_handle(), INVALID_SOCKET);
    assert!(matches!(setup.step(SetupEvent::AcceptIssued { error: ERROR_IO_PENDING }), SetupAction::Ignored));
    assert_eq!(setup.finish().err(), Some(0));
}

#[test]
fn listener_setup_ignores_foreign_events() {
    let mut setup = new_setup();
    assert!(matches!(setup.step(SetupEvent::CallReturned { result: 0, error: 0 }), SetupAction::Ignored));
    assert!(matches!(setup.step(SetupEvent::PortLinked { returned: PORT }), SetupAction::Ignored));
    assert_eq!(setup.phase_now(), SetupPhase::CreatingSocket);
    setup.step(SetupEvent::SocketCreated { handle: LISTEN, error: 0 });
    assert!(matches!(setup.step(SetupEvent::AcceptIssued { error: ERROR_IO_PENDING }), SetupAction::Ignored));
    assert_eq!(setup.phase_now(), SetupPhase::Binding);
}
