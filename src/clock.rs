//! Wall-clock base kept from NTP syncs, and the NTP packets themselves.
use vstd::prelude::*;

verus! {

/// Seconds since boot, from embassy-time's monotonic clock.
///
/// Relies on `embassy_time::Instant::now` and `Instant::as_secs`; nothing is
/// stated of the value, which depends on when it is read.
#[verifier::external_body]
fn uptime_secs() -> (r: u32) {
    embassy_time::Instant::now().as_secs() as u32
}

/// Offset between the NTP era (1900) and the Unix epoch (1970), in seconds.
pub const NTP_UNIX_OFFSET: u32 = 2_208_988_800;

/// Length of an NTP packet.
pub const NTP_PACKET_LEN: usize = 48;

/// Wall-clock base: the Unix time of the last sync and the uptime at which it
/// was taken. A Unix time of 0 means "never synced".
pub struct TimeState {
    pub unix_at_sync: u32,
    pub uptime_at_sync: u32,
}

/// Wall-clock time at uptime `now` for a base synced to `unix` at uptime
/// `base_uptime`, wrapping at 2^32 seconds.
pub open spec fn wall_clock(unix: u32, base_uptime: u32, now: u32) -> u32 {
    ((unix as int + now as int - base_uptime as int) % 0x1_0000_0000) as u32
}

impl TimeState {
    /// A base that has never been synced.
    pub fn new() -> (r: TimeState)
        ensures
            r.unix_at_sync == 0,
            r.uptime_at_sync == 0,
    {
        TimeState { unix_at_sync: 0, uptime_at_sync: 0 }
    }

    /// Records a sync: Unix time `unix` observed at uptime `uptime`.
    pub fn set_at(&mut self, unix: u32, uptime: u32)
        ensures
            final(self).unix_at_sync == unix,
            final(self).uptime_at_sync == uptime,
    {
        self.unix_at_sync = unix;
        self.uptime_at_sync = uptime;
    }

    /// Records a sync at the current uptime.
    pub fn set(&mut self, unix: u32)
        ensures
            final(self).unix_at_sync == unix,
    {
        let uptime = uptime_secs();
        self.set_at(unix, uptime);
    }

    /// Wall-clock time at uptime `uptime`; `None` before the first sync.
    pub fn now_at(&self, uptime: u32) -> (r: Option<u32>)
        ensures
            self.unix_at_sync == 0 ==> r is None,
            self.unix_at_sync != 0 ==> r == Some(
                wall_clock(self.unix_at_sync, self.uptime_at_sync, uptime),
            ),
    {
        if self.unix_at_sync == 0 {
            return None;
        }
        let elapsed = uptime.wrapping_sub(self.uptime_at_sync);
        Some(self.unix_at_sync.wrapping_add(elapsed))
    }

    /// Wall-clock time now; `None` before the first sync.
    pub fn now(&self) -> (r: Option<u32>)
        ensures
            self.unix_at_sync == 0 <==> r is None,
    {
        let uptime = uptime_secs();
        self.now_at(uptime)
    }

    /// Timestamp for a sample taken at uptime `uptime`: wall-clock time when
    /// synced, else the uptime itself.
    pub fn now_or_uptime_at(&self, uptime: u32) -> (r: u32)
        ensures
            self.unix_at_sync == 0 ==> r == uptime,
            self.unix_at_sync != 0 ==> r == wall_clock(
                self.unix_at_sync,
                self.uptime_at_sync,
                uptime,
            ),
    {
        match self.now_at(uptime) {
            Some(t) => t,
            None => uptime,
        }
    }

    /// Timestamp for a sample taken now.
    pub fn now_or_uptime(&self) -> (r: u32) {
        let uptime = uptime_secs();
        self.now_or_uptime_at(uptime)
    }
}

/// An NTP client request: version 4, client mode, unsynchronised leap indicator.
pub fn ntp_request() -> (r: Vec<u8>)
    ensures
        r@.len() == NTP_PACKET_LEN,
        r@[0] == 0b1110_0011u8,
        forall|i: int| 1 <= i < NTP_PACKET_LEN ==> r@[i] == 0u8,
{
    let mut r: Vec<u8> = Vec::new();
    r.push(0b1110_0011u8);
    while r.len() < NTP_PACKET_LEN
        invariant
            1 <= r@.len() <= NTP_PACKET_LEN,
            r@[0] == 0b1110_0011u8,
            forall|i: int| 1 <= i < r@.len() ==> r@[i] == 0u8,
        decreases NTP_PACKET_LEN - r@.len(),
    {
        r.push(0u8);
    }
    r
}

/// The big-endian integer in the four bytes of `b` from `at`.
pub open spec fn be_u32_at(b: Seq<u8>, at: int) -> int {
    b[at] as int * 0x100_0000 + b[at + 1] as int * 0x1_0000 + b[at + 2] as int * 0x100 + b[at
        + 3] as int
}

/// The Unix time carried by an NTP reply: the transmit timestamp's seconds
/// (bytes 40..44, big-endian) less the era offset. `None` for a reply
/// shorter than a full packet or a time before 1970.
pub fn ntp_unix_seconds(reply: &[u8]) -> (r: Option<u32>)
    ensures
        reply@.len() < NTP_PACKET_LEN ==> r is None,
        reply@.len() >= NTP_PACKET_LEN && be_u32_at(reply@, 40) < NTP_UNIX_OFFSET ==> r is None,
        reply@.len() >= NTP_PACKET_LEN && be_u32_at(reply@, 40) >= NTP_UNIX_OFFSET ==> r == Some(
            (be_u32_at(reply@, 40) - NTP_UNIX_OFFSET) as u32,
        ),
{
    if reply.len() < NTP_PACKET_LEN {
        return None;
    }
    let secs: u64 = (reply[40] as u64) * 0x100_0000 + (reply[41] as u64) * 0x1_0000
        + (reply[42] as u64) * 0x100 + reply[43] as u64;
    if secs < NTP_UNIX_OFFSET as u64 {
        None
    } else {
        Some((secs - NTP_UNIX_OFFSET as u64) as u32)
    }
}

} // verus!
