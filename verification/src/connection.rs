//! Connection lifecycle data: the status record, the shape check for
//! connection strings, and the heartbeat-based liveness rule.

use vstd::prelude::*;
use crate::errors::SessionError;
use crate::text::{collect_chars, contains_char, has_char, utf8_len, utf8_len_at_least};

verus! {

/// The live link record. `connection_string` and `last_heartbeat` are
/// present exactly while `connected` is true; `link_quality` is held in
/// thousandths and never exceeds 1000 (a full-quality link).
#[derive(Debug)]
pub struct ConnectionStatus {
    pub connected: bool,
    pub connection_string: Option<String>,
    /// Milliseconds since the epoch of the last heartbeat.
    pub last_heartbeat: Option<u64>,
    pub messages_received: u64,
    pub messages_sent: u64,
    /// Link quality in thousandths: 0 is no link, 1000 is full quality.
    pub link_quality: u32,
}

/// The mathematical value of a [`ConnectionStatus`].
#[verifier::ext_equal]
pub struct StatusModel {
    pub connected: bool,
    pub connection_string: Option<Seq<char>>,
    pub last_heartbeat: Option<u64>,
    pub messages_received: u64,
    pub messages_sent: u64,
    pub link_quality: u32,
}

impl View for ConnectionStatus {
    type V = StatusModel;

    open spec fn view(&self) -> StatusModel {
        StatusModel {
            connected: self.connected,
            connection_string: match self.connection_string {
                Some(s) => Some(s@),
                None => None,
            },
            last_heartbeat: self.last_heartbeat,
            messages_received: self.messages_received,
            messages_sent: self.messages_sent,
            link_quality: self.link_quality,
        }
    }
}

impl Clone for ConnectionStatus {
    /// An exact copy of the status record.
    fn clone(&self) -> (r: Self)
        ensures
            r@ == self@,
    {
        let r = ConnectionStatus {
            connected: self.connected,
            connection_string: match &self.connection_string {
                Some(s) => Some(s.clone()),
                None => None,
            },
            last_heartbeat: self.last_heartbeat,
            messages_received: self.messages_received,
            messages_sent: self.messages_sent,
            link_quality: self.link_quality,
        };
        proof {
            assert(r@ =~= self@);
        }
        r
    }
}

/// The internal consistency of a status record.
pub open spec fn status_wf(st: StatusModel) -> bool {
    &&& (st.connection_string is Some <==> st.connected)
    &&& (st.last_heartbeat is Some <==> st.connected)
    &&& st.link_quality <= 1000
}

/// The status a fresh session starts with, and the one disconnecting
/// returns to.
pub open spec fn initial_status() -> StatusModel {
    StatusModel {
        connected: false,
        connection_string: None,
        last_heartbeat: None,
        messages_received: 0,
        messages_sent: 0,
        link_quality: 0,
    }
}

impl ConnectionStatus {
    /// A disconnected status record.
    pub fn new() -> (r: Self)
        ensures
            r@ == initial_status(),
            status_wf(r@),
    {
        ConnectionStatus {
            connected: false,
            connection_string: None,
            last_heartbeat: None,
            messages_received: 0,
            messages_sent: 0,
            link_quality: 0,
        }
    }
}

/// Whether `s` begins with the characters `udp://`.
pub open spec fn starts_udp(s: Seq<char>) -> bool {
    s.len() >= 6 && s[0] == 'u' && s[1] == 'd' && s[2] == 'p' && s[3] == ':' && s[4] == '/' && s[5]
        == '/'
}

/// Whether `s` begins with the characters `tcp://`.
pub open spec fn starts_tcp(s: Seq<char>) -> bool {
    s.len() >= 6 && s[0] == 't' && s[1] == 'c' && s[2] == 'p' && s[3] == ':' && s[4] == '/' && s[5]
        == '/'
}

/// Whether `s` begins with the characters `/dev/` (a serial device path).
pub open spec fn starts_dev(s: Seq<char>) -> bool {
    s.len() >= 5 && s[0] == '/' && s[1] == 'd' && s[2] == 'e' && s[3] == 'v' && s[4] == '/'
}

/// Whether `s` begins with the characters `COM` (a serial port name).
pub open spec fn starts_com(s: Seq<char>) -> bool {
    s.len() >= 3 && s[0] == 'C' && s[1] == 'O' && s[2] == 'M'
}

/// The recognized transport shapes: `udp://host:port` or `tcp://host:port`
/// longer than ten bytes, or a serial endpoint (`/dev/...` device path or
/// `COM...` port name) with a `:baud` suffix.
pub open spec fn valid_connection_string(s: Seq<char>) -> bool {
    if starts_udp(s) || starts_tcp(s) {
        has_char(s, ':') && utf8_len(s) > 10
    } else if starts_dev(s) || starts_com(s) {
        has_char(s, ':')
    } else {
        false
    }
}

/// Whether `conn_str` matches a recognized transport shape.
pub fn validate_connection_string(conn_str: &str) -> (r: bool)
    ensures
        r == valid_connection_string(conn_str@),
{
    let cs = collect_chars(conn_str);
    let udp = cs.len() >= 6 && cs[0] == 'u' && cs[1] == 'd' && cs[2] == 'p' && cs[3] == ':' && cs[4]
        == '/' && cs[5] == '/';
    let tcp = cs.len() >= 6 && cs[0] == 't' && cs[1] == 'c' && cs[2] == 'p' && cs[3] == ':' && cs[4]
        == '/' && cs[5] == '/';
    if udp || tcp {
        return contains_char(&cs, ':') && utf8_len_at_least(&cs, 11);
    }
    let dev = cs.len() >= 5 && cs[0] == '/' && cs[1] == 'd' && cs[2] == 'e' && cs[3] == 'v' && cs[4]
        == '/';
    let com = cs.len() >= 3 && cs[0] == 'C' && cs[1] == 'O' && cs[2] == 'M';
    if dev || com {
        return contains_char(&cs, ':');
    }
    false
}

/// Whether a heartbeat seen at `last` is stale at `now`: more than five
/// seconds have passed.
pub open spec fn heartbeat_stale(last: u64, now: u64) -> bool {
    now > last + 5000
}

/// The liveness rule every vehicle-touching operation goes through:
/// a session must be connected and its last heartbeat fresh.
pub open spec fn spec_verify_connection(st: StatusModel, now: u64) -> Result<(), SessionError> {
    if !st.connected {
        Err(SessionError::NotConnected)
    } else if st.last_heartbeat is Some && heartbeat_stale(st.last_heartbeat->0, now) {
        Err(SessionError::HeartbeatTimeout)
    } else {
        Ok(())
    }
}

impl ConnectionStatus {
    /// Checks the liveness rule against this status at time `now`.
    pub fn check_live(&self, now: u64) -> (r: Result<(), SessionError>)
        ensures
            r == spec_verify_connection(self@, now),
    {
        if !self.connected {
            return Err(SessionError::NotConnected);
        }
        if let Some(last) = self.last_heartbeat {
            if now > last && now - last > 5000 {
                return Err(SessionError::HeartbeatTimeout);
            }
        }
        Ok(())
    }
}

} // verus!
