//! Finding receiver devices: which addresses a scan of the local network
//! yields.
//!
//! The scan itself is the driver's business. What it hears, response by
//! response, is handed to a [`Discovery`], which keeps the address of every
//! device once, in the order in which the devices were first heard.

use vstd::prelude::*;
use vstd::string::StringExecFns;

verus! {

/// The network address of a device.
#[derive(Clone, Copy, Debug, PartialEq, Eq, Structural)]
pub enum DeviceAddress {
    /// An IPv4 address, as a big-endian number.
    V4(u32),
    /// An IPv6 address, as a big-endian number.
    V6(u128),
}

/// What a DNS record holds.
#[derive(Clone, Copy, Debug, PartialEq, Eq, Structural)]
pub enum RecordKind {
    /// An IPv4 address record.
    A(u32),
    /// An IPv6 address record.
    AAAA(u128),
    /// Any record that carries no address.
    Other,
}

/// One DNS record of a response.
#[derive(Clone, Copy, Debug, PartialEq, Eq, Structural)]
pub struct Record {
    pub kind: RecordKind,
}

/// What a scan is made with.
#[derive(Debug, PartialEq, Eq)]
pub struct DiscoveryConfig {
    /// The service that receiver devices announce.
    pub service_name: String,
    /// How long the scan listens, in seconds.
    pub timeout_seconds: u64,
}

impl DiscoveryConfig {
    /// The scan for cast receivers: three seconds on their service name.
    pub fn standard() -> (config: DiscoveryConfig)
        ensures
            config.service_name@ == "_googlecast._tcp.local"@,
            config.timeout_seconds == 3,
    {
        DiscoveryConfig {
            service_name: String::from_str("_googlecast._tcp.local"),
            timeout_seconds: 3,
        }
    }
}

/// The address that a record carries, if it carries one.
pub open spec fn address_of(record: Record) -> Option<DeviceAddress> {
    match record.kind {
        RecordKind::A(bits) => Some(DeviceAddress::V4(bits)),
        RecordKind::AAAA(bits) => Some(DeviceAddress::V6(bits)),
        RecordKind::Other => None,
    }
}

/// The address of the first record of a response that carries one.
pub open spec fn first_address(records: Seq<Record>) -> Option<DeviceAddress>
    decreases records.len(),
{
    if records.len() == 0 {
        None
    } else {
        match address_of(records[0]) {
            Some(address) => Some(address),
            None => first_address(records.drop_first()),
        }
    }
}

/// The addresses known after one more response: its address is added at the
/// end unless it is known already or the response has none.
pub open spec fn heard(known: Seq<DeviceAddress>, records: Seq<Record>) -> Seq<DeviceAddress> {
    match first_address(records) {
        Some(address) => if known.contains(address) {
            known
        } else {
            known.push(address)
        },
        None => known,
    }
}

/// The addresses known after a run of responses.
pub open spec fn discovered(responses: Seq<Seq<Record>>) -> Seq<DeviceAddress>
    decreases responses.len(),
{
    if responses.len() == 0 {
        Seq::empty()
    } else {
        heard(discovered(responses.drop_last()), responses.last())
    }
}

/// Whether a scan that began at `started_ms` still listens at `now_ms`.
pub open spec fn within_window(started_ms: u64, timeout_seconds: u64, now_ms: u64) -> bool {
    now_ms - started_ms < timeout_seconds * 1000
}

/// Converts a DNS record to the address it carries: an `A` or an `AAAA`
/// record has one, no other record has.
pub fn to_ip_addr(record: &Record) -> (address: Option<DeviceAddress>)
    ensures
        address == address_of(*record),
{
    match record.kind {
        RecordKind::A(bits) => Some(DeviceAddress::V4(bits)),
        RecordKind::AAAA(bits) => Some(DeviceAddress::V6(bits)),
        RecordKind::Other => None,
    }
}

/// The address of the first record of `records` that carries one.
pub fn response_address(records: &Vec<Record>) -> (address: Option<DeviceAddress>)
    ensures
        address == first_address(records@),
{
    let mut i: usize = 0;
    assert(records@.skip(0) =~= records@);
    while i < records.len()
        invariant
            i <= records.len(),
            first_address(records@) == first_address(records@.skip(i as int)),
        decreases records.len() - i,
    {
        let rest = Ghost(records@.skip(i as int));
        assert(rest@[0] == records@[i as int]);
        assert(rest@.drop_first() =~= records@.skip(i + 1));
        match to_ip_addr(&records[i]) {
            Some(address) => {
                return Some(address);
            },
            None => {},
        }
        i += 1;
    }
    assert(records@.skip(i as int).len() == 0);
    None
}

/// Whether `address` is among `known`.
fn knows(known: &Vec<DeviceAddress>, address: DeviceAddress) -> (found: bool)
    ensures
        found == known@.contains(address),
{
    let mut i: usize = 0;
    while i < known.len()
        invariant
            i <= known.len(),
            forall|j: int| 0 <= j < i ==> known@[j] != address,
        decreases known.len() - i,
    {
        if known[i] == address {
            return true;
        }
        i += 1;
    }
    false
}

/// A scan for devices under way.
#[derive(Debug, PartialEq, Eq)]
pub struct Discovery {
    found: Vec<DeviceAddress>,
    started_ms: u64,
    timeout_seconds: u64,
}

impl Discovery {
    /// The addresses found so far, in the order in which they were first heard.
    pub closed spec fn found(&self) -> Seq<DeviceAddress> {
        self.found@
    }

    /// Clock reading at which the scan began.
    pub closed spec fn started_ms(&self) -> u64 {
        self.started_ms
    }

    /// How long the scan listens, in seconds.
    pub closed spec fn timeout_seconds(&self) -> u64 {
        self.timeout_seconds
    }

    /// Begins a scan at clock reading `now_ms`, with nothing found.
    pub fn begin(config: &DiscoveryConfig, now_ms: u64) -> (scan: Discovery)
        ensures
            scan.found() == Seq::<DeviceAddress>::empty(),
            scan.started_ms() == now_ms,
            scan.timeout_seconds() == config.timeout_seconds,
    {
        Discovery { found: Vec::new(), started_ms: now_ms, timeout_seconds: config.timeout_seconds }
    }

    /// Whether the scan still listens at clock reading `now_ms`: it does
    /// until the timeout has passed.
    pub fn listening(&self, now_ms: u64) -> (open: bool)
        ensures
            open == within_window(self.started_ms(), self.timeout_seconds(), now_ms),
    {
        if now_ms < self.started_ms {
            true
        } else {
            let elapsed = now_ms - self.started_ms;
            match self.timeout_seconds.checked_mul(1000) {
                Some(window) => elapsed < window,
                None => true,
            }
        }
    }

    /// Takes in one response: the address of its first address record is
    /// added unless it is known already.
    pub fn observe(&mut self, records: &Vec<Record>)
        ensures
            final(self).found() == heard(old(self).found(), records@),
            final(self).started_ms() == old(self).started_ms(),
            final(self).timeout_seconds() == old(self).timeout_seconds(),
    {
        match response_address(records) {
            Some(address) => {
                if !knows(&self.found, address) {
                    self.found.push(address);
                }
            },
            None => {},
        }
    }

    /// Ends the scan and hands out what it found.
    pub fn finish(self) -> (addresses: Vec<DeviceAddress>)
        ensures
            addresses@ == self.found(),
    {
        self.found
    }
}

/// The views of the responses of a scan.
pub open spec fn responses_view(responses: Seq<Vec<Record>>) -> Seq<Seq<Record>> {
    responses.map_values(|records: Vec<Record>| records@)
}

/// The addresses of the devices heard in `responses`: each device once, in
/// the order in which the devices were first heard. No response is no
/// failure: the list is then empty.
pub fn find_device_ips(responses: &Vec<Vec<Record>>) -> (addresses: Vec<DeviceAddress>)
    ensures
        addresses@ == discovered(responses_view(responses@)),
{
    let mut found: Vec<DeviceAddress> = Vec::new();
    let mut i: usize = 0;
    while i < responses.len()
        invariant
            i <= responses.len(),
            found@ == discovered(responses_view(responses@).take(i as int)),
        decreases responses.len() - i,
    {
        let ghost all = responses_view(responses@);
        assert(all.take(i + 1).drop_last() =~= all.take(i as int));
        assert(all.take(i + 1).last() == responses@[i as int]@);
        match response_address(&responses[i]) {
            Some(address) => {
                if !knows(&found, address) {
                    found.push(address);
                }
            },
            None => {},
        }
        i += 1;
    }
    assert(responses_view(responses@).take(i as int) =~= responses_view(responses@));
    found
}

/// No address is found twice.
pub proof fn law_discovered_once(responses: Seq<Seq<Record>>, i: int, j: int)
    requires
        0 <= i < j < discovered(responses).len(),
    ensures
        discovered(responses)[i] != discovered(responses)[j],
    decreases responses.len(),
{
    if responses.len() > 0 {
        let before = discovered(responses.drop_last());
        if j < before.len() {
            law_discovered_once(responses.drop_last(), i, j);
        }
    }
}

/// The address of every response is found.
pub proof fn law_discovered_all(responses: Seq<Seq<Record>>, n: int)
    requires
        0 <= n < responses.len(),
        first_address(responses[n]) is Some,
    ensures
        discovered(responses).contains(first_address(responses[n])->0),
    decreases responses.len(),
{
    let before = discovered(responses.drop_last());
    let address = first_address(responses[n])->0;
    if n < responses.len() - 1 {
        law_discovered_all(responses.drop_last(), n);
        let at = choose|k: int| 0 <= k < before.len() && before[k] == address;
        assert(discovered(responses)[at] == address);
    } else {
        if before.contains(address) {
        } else {
            assert(before.push(address)[before.len() as int] == address);
        }
    }
}

/// Nothing is found that no response carried.
pub proof fn law_discovered_heard(responses: Seq<Seq<Record>>, i: int)
    requires
        0 <= i < discovered(responses).len(),
    ensures
        exists|n: int|
            0 <= n < responses.len() && first_address(#[trigger] responses[n]) == Some(
                discovered(responses)[i],
            ),
    decreases responses.len(),
{
    if responses.len() > 0 {
        let before = discovered(responses.drop_last());
        if i < before.len() {
            law_discovered_heard(responses.drop_last(), i);
            let n = choose|n: int|
                0 <= n < responses.drop_last().len() && first_address(
                    #[trigger] responses.drop_last()[n],
                ) == Some(before[i]);
            assert(responses[n] == responses.drop_last()[n]);
        } else {
            assert(first_address(responses[responses.len() - 1]) == Some(discovered(responses)[i]));
        }
    }
}

} // verus!
