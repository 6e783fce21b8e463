//! Hosts: the subscribers that show the tray.

use crate::text::{decimal, decimal_string};
use vstd::prelude::*;

verus! {

/// Capacity asked of the channel that carries the messages to the hosts.
/// A host that falls behind is kept at least this many messages; the
/// channel may keep more before the host misses some.
pub const BROADCAST_CAPACITY: usize = 5;

/// What every host's well-known name begins with.
pub const HOST_NAME_PREFIX: &'static str = "org.freedesktop.StatusNotifierHost-";

/// The well-known name of the host `unique_id` of the process `pid`: the
/// prefix, the process id in decimal, a hyphen and the host's id.
pub open spec fn host_name(pid: u32, unique_id: Seq<char>) -> Seq<char> {
    HOST_NAME_PREFIX@ + decimal(pid as nat) + "-"@ + unique_id
}

/// Builds the well-known name under which a host registers on the bus.
pub fn wellknown_name(pid: u32, unique_id: &str) -> (r: String)
    ensures
        r@ == host_name(pid, unique_id@),
{
    let mut name = String::from_str(HOST_NAME_PREFIX);
    let digits = decimal_string(pid);
    name.append(digits.as_str());
    name.append("-");
    name.append(unique_id);
    name
}

} // verus!
