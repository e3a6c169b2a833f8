use vstd::prelude::*;

verus! {

/// The address on which the pre-server listens.
pub const LISTEN_ADDR: &'static str = "127.0.0.1:4242";

/// What the pre-server answers on a connection that sent something.
pub const GREETING: &'static str = "hello from Rust SSH listener";

/// The pre-server's answer after a read of `bytes_read` bytes from a new
/// connection: none when the peer closed it (nothing was read), else the
/// greeting.
pub fn reply_to_read(bytes_read: usize) -> (res: Option<&'static str>)
    ensures
        bytes_read == 0 ==> res is None,
        bytes_read > 0 ==> res == Some(GREETING),
{
    if bytes_read == 0 {
        None
    } else {
        Some(GREETING)
    }
}

} // verus!
