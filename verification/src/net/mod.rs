//! Networking: endpoints, sockets and TCP listeners and connections.

pub mod endpoint;
pub mod tcp;

pub use self::endpoint::Endpoint;
pub use self::endpoint::EndpointV4;
pub use self::endpoint::IpAddrV4;
pub use self::tcp::TcpConnectNotify;
pub use self::tcp::TcpConnection;
pub use self::tcp::TcpListener;
pub use self::tcp::TcpReceiveNotify;

use vstd::prelude::*;

use crate::app::Result;

verus! {

/// The 16-bit word whose low byte is `low` and whose high byte is `high`.
pub fn make_word(low: u8, high: u8) -> (r: u16)
    ensures
        r == low + 256 * high,
{
    let h = high as u16;
    assert((h << 8u16) == h * 256) by (bit_vector)
        requires
            h < 256,
    ;
    (low as u16) + (h << 8u16)
}

/// The version of the socket layer that the library asks for: 2.2.
pub fn socket_version() -> (r: u16)
    ensures
        r == 0x0202,
{
    make_word(2, 2)
}

/// The outcome of initialising the socket layer, given the status that
/// the startup call returned and the error code reported right after.
pub fn initialize(status: i32, error: u32) -> (r: Result<()>)
    ensures
        status == 0 ==> r == Ok::<(), u32>(()),
        status != 0 ==> r == Err::<(), u32>(error),
{
    tcp::check_status(status, error)
}

} // verus!
