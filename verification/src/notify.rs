//! Signalling to the service manager: what is sent, where to, and whether a
//! watchdog is armed for this process.
use crate::span::Span;
use crate::text;
use vstd::prelude::*;
use vstd::utf8::{decode_utf8, valid_utf8};

verus! {

/// A state that the service manager can be told.
#[derive(Clone, Copy, Debug, PartialEq, Eq, Structural)]
pub enum Notification {
    Ready,
    Stopping,
    Watchdog,
}

impl Notification {
    /// The datagram's text.
    pub open spec fn text(self) -> Seq<char> {
        match self {
            Notification::Ready => "READY=1"@,
            Notification::Stopping => "STOPPING=1"@,
            Notification::Watchdog => "WATCHDOG=1"@,
        }
    }

    /// The datagram to send.
    pub fn datagram(self) -> (out: &'static str)
        ensures
            out@ == self.text(),
    {
        match self {
            Notification::Ready => "READY=1",
            Notification::Stopping => "STOPPING=1",
            Notification::Watchdog => "WATCHDOG=1",
        }
    }
}

/// Started and serving.
pub fn notify_ready() -> (notification: Notification)
    ensures
        notification.text() == "READY=1"@,
{
    Notification::Ready
}

/// Shutdown began.
pub fn notify_stopping() -> (notification: Notification)
    ensures
        notification.text() == "STOPPING=1"@,
{
    Notification::Stopping
}

/// Still alive.
pub fn notify_watchdog() -> (notification: Notification)
    ensures
        notification.text() == "WATCHDOG=1"@,
{
    Notification::Watchdog
}

/// Where notifications go.
#[derive(Clone, Debug)]
pub enum NotifyAddress {
    /// A socket file.
    Path(Vec<u8>),
    /// A name in the abstract namespace, which exists on Linux only.
    Abstract(Vec<u8>),
}

/// Reads the socket variable: a leading `@` means an abstract name.
pub fn notify_address(socket: &Vec<u8>) -> (address: NotifyAddress)
    ensures
        address is Abstract <==> socket@.len() > 0 && socket@[0] == 64,
        address matches NotifyAddress::Path(path) ==> path@ == socket@,
        address matches NotifyAddress::Abstract(name) ==> name@ == socket@.skip(1),
{
    if socket.len() > 0 && socket[0] == 64 {
        let mut name: Vec<u8> = Vec::new();
        let mut i: usize = 1;
        while i < socket.len()
            invariant
                1 <= i <= socket@.len(),
                name@ =~= socket@.subrange(1, i as int),
            decreases socket@.len() - i,
        {
            name.push(socket[i]);
            i += 1;
        }
        assert(name@ =~= socket@.skip(1));
        NotifyAddress::Abstract(name)
    } else {
        let path = socket.clone();
        assert(path@ =~= socket@);
        NotifyAddress::Path(path)
    }
}

// ---------------------------------------------------------------- watchdog
/// The whole number that raw bytes write, blanks around it aside.
pub open spec fn number_in(bytes: Seq<u8>) -> Option<nat> {
    if valid_utf8(bytes) {
        text::decimal_number(text::trim_text(decode_utf8(bytes)))
    } else {
        None
    }
}

/// Whether the watchdog variables arm a watchdog for this process, and its
/// interval in microseconds: a positive interval is set, and the process
/// that is named, if one is, is this one.
pub open spec fn watchdog_micros(
    usec: Option<Seq<u8>>,
    pid: Option<Seq<u8>>,
    my_pid: u32,
) -> Option<nat> {
    if usec is None || (pid is Some && number_in(pid->0) != Some(my_pid as nat)) {
        None
    } else {
        match number_in(usec->0) {
            Some(n) => if 0 < n <= u64::MAX {
                Some(n)
            } else {
                None
            },
            None => None,
        }
    }
}

/// The bytes behind an optional vector.
pub open spec fn opt_bytes(bytes: Option<Vec<u8>>) -> Option<Seq<u8>> {
    match bytes {
        Some(b) => Some(b@),
        None => None,
    }
}

/// The interval within which the service manager expects a ping, when a
/// watchdog is armed for this process. Callers ping at half of it.
pub fn watchdog_interval_from(usec: &Option<Vec<u8>>, pid: &Option<Vec<u8>>, my_pid: u32) -> (
    interval: Option<Span>)
    ensures
        interval is Some <==> watchdog_micros(opt_bytes(*usec), opt_bytes(*pid), my_pid) is Some,
        interval matches Some(span) ==> span.wf() && Some(span.total_nanos() / 1000)
            == watchdog_micros(opt_bytes(*usec), opt_bytes(*pid), my_pid) && span.total_nanos()
            % 1000 == 0,
{
    let usec = match usec {
        Some(usec) => usec,
        None => {
            return None;
        },
    };
    if let Some(pid) = pid {
        let named: Option<u32> = match text::utf8_text(pid) {
            Some(t) => match text::parse_u32(text::trim(t.as_str()).as_str()) {
                Ok(n) => Some(n),
                Err(_) => None,
            },
            None => None,
        };
        match named {
            Some(n) => if n != my_pid {
                return None;
            },
            None => {
                return None;
            },
        }
    }
    match text::utf8_text(usec) {
        Some(t) => match text::parse_u64(text::trim(t.as_str()).as_str()) {
            Ok(micros) => if micros > 0 {
                Some(Span::from_micros(micros))
            } else {
                None
            },
            Err(_) => None,
        },
        None => None,
    }
}

/// The watchdog interval, which also takes a socket to ping at.
pub fn watchdog_interval(
    socket: &Option<Vec<u8>>,
    usec: &Option<Vec<u8>>,
    pid: &Option<Vec<u8>>,
    my_pid: u32,
) -> (interval: Option<Span>)
    ensures
        interval is Some <==> *socket is Some && watchdog_micros(
            opt_bytes(*usec),
            opt_bytes(*pid),
            my_pid,
        ) is Some,
        interval matches Some(span) ==> span.wf() && Some(span.total_nanos() / 1000)
            == watchdog_micros(opt_bytes(*usec), opt_bytes(*pid), my_pid) && span.total_nanos()
            % 1000 == 0,
{
    match socket {
        Some(_) => watchdog_interval_from(usec, pid, my_pid),
        None => None,
    }
}

/// A watchdog is armed by a positive number of microseconds, for this process
/// where one is named, and by nothing else.
pub proof fn law_a_watchdog_is_armed_for_its_process(
    usec: Seq<u8>,
    pid: Option<Seq<u8>>,
    my_pid: u32,
)
    ensures
        watchdog_micros(None, pid, my_pid) is None,
        pid is None ==> (watchdog_micros(Some(usec), pid, my_pid) is Some <==> (number_in(
            usec,
        ) matches Some(n) && 1 <= n <= 0xffff_ffff_ffff_ffff)),
        pid matches Some(p) ==> (number_in(p) == Some(my_pid as nat) ==> watchdog_micros(
            Some(usec),
            pid,
            my_pid,
        ) == watchdog_micros(Some(usec), None, my_pid)) && (number_in(p) != Some(my_pid as nat)
            ==> watchdog_micros(Some(usec), pid, my_pid) is None),
        watchdog_micros(Some(usec), pid, my_pid) matches Some(n) ==> number_in(usec) == Some(n),
        valid_utf8(usec) ==> number_in(usec) == text::decimal_number(
            text::trim_text(decode_utf8(usec)),
        ),
        !valid_utf8(usec) ==> number_in(usec) is None,
{
}

} // verus!
