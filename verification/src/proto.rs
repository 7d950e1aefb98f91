//! What the engine and its clients agree on: the protocol's version and
//! where the socket is.
use crate::notify::opt_bytes;
use crate::paths::{copy_bytes, join, joined};
use vstd::prelude::*;
use vstd::utf8::encode_utf8;

verus! {

/// The version of the protocol.
pub const PROTOCOL_VERSION: u32 = 2;

pub const SOCKET_ENV: &'static str = "VALQERON_SOCKET";

pub const SOCKET_FILE_NAME: &'static str = "valqeron.sock";

/// Why the socket could not be located.
#[derive(Clone, Copy, Debug, PartialEq, Eq, Structural)]
pub enum ConnectionConfigError {
    NoHomeDirectory,
}

/// What is said when no socket location is known.
pub open spec fn no_home_text() -> Seq<char> {
    "could not determine a home directory for the engine socket"@
}

impl ConnectionConfigError {
    pub fn message(&self) -> (out: String)
        ensures
            out@ == no_home_text(),
    {
        "could not determine a home directory for the engine socket".to_owned()
    }
}

/// Where the socket is: an explicit path, else the variable, else the
/// default name in the runtime directory, or in `run` below the data
/// directory where there is no runtime directory. Without a data directory
/// the platform's directories are unknown.
pub open spec fn socket_path(
    flag: Option<Seq<u8>>,
    env_value: Option<Seq<u8>>,
    runtime_dir: Option<Seq<u8>>,
    data_dir: Option<Seq<u8>>,
) -> Option<Seq<u8>> {
    if flag is Some {
        flag
    } else if env_value is Some {
        env_value
    } else if data_dir is None {
        None
    } else {
        let dir = match runtime_dir {
            Some(dir) => dir,
            None => joined(data_dir->0, encode_utf8("run"@)),
        };
        Some(joined(dir, encode_utf8(SOCKET_FILE_NAME@)))
    }
}

/// Locates the socket.
pub fn resolve_socket_path(
    flag: &Option<Vec<u8>>,
    env_value: &Option<Vec<u8>>,
    runtime_dir: &Option<Vec<u8>>,
    data_dir: &Option<Vec<u8>>,
) -> (path: Result<Vec<u8>, ConnectionConfigError>)
    ensures
        path is Ok <==> socket_path(
            opt_bytes(*flag),
            opt_bytes(*env_value),
            opt_bytes(*runtime_dir),
            opt_bytes(*data_dir),
        ) is Some,
        path matches Ok(p) ==> socket_path(
            opt_bytes(*flag),
            opt_bytes(*env_value),
            opt_bytes(*runtime_dir),
            opt_bytes(*data_dir),
        ) == Some(p@),
        path matches Err(e) ==> e == ConnectionConfigError::NoHomeDirectory,
{
    if let Some(path) = flag {
        return Ok(copy_bytes(path));
    }
    if let Some(path) = env_value {
        return Ok(copy_bytes(path));
    }
    let data_dir = match data_dir {
        Some(dir) => dir,
        None => {
            return Err(ConnectionConfigError::NoHomeDirectory);
        },
    };
    let dir = match runtime_dir {
        Some(dir) => copy_bytes(dir),
        None => join(data_dir, "run"),
    };
    Ok(join(&dir, SOCKET_FILE_NAME))
}

/// An explicit path always wins: the flag over everything, and without one
/// the variable over the surroundings.
pub proof fn law_an_explicit_socket_path_wins(
    flag: Seq<u8>,
    env_value: Option<Seq<u8>>,
    runtime_dir: Option<Seq<u8>>,
    data_dir: Option<Seq<u8>>,
)
    ensures
        socket_path(Some(flag), env_value, runtime_dir, data_dir) == Some(flag),
        socket_path(None, Some(flag), runtime_dir, data_dir) == Some(flag),
{
}

/// Without an explicit path the socket stands in the runtime directory, or in
/// `run` below the data directory where there is none, under its own name;
/// without a data directory it is unknown.
pub proof fn law_the_default_socket_stands_in_the_runtime_directory(
    runtime_dir: Seq<u8>,
    data_dir: Seq<u8>,
    other: Option<Seq<u8>>,
)
    ensures
        socket_path(None, None, Some(runtime_dir), Some(data_dir)) == Some(
            joined(runtime_dir, encode_utf8("valqeron.sock"@)),
        ),
        socket_path(None, None, None, Some(data_dir)) == Some(
            joined(joined(data_dir, encode_utf8("run"@)), encode_utf8("valqeron.sock"@)),
        ),
        socket_path(None, None, other, None) is None,
{
}

} // verus!
