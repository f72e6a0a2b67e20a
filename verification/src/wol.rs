//! The wake transport: the hardware address, the magic packet and the
//! deliveries that carry it.

use vstd::prelude::*;
use vstd::string::StringSliceAdditionalSpecFns;

verus! {

/// Why a hardware address was refused.
#[derive(Debug, Clone, Copy, PartialEq, Eq, Structural)]
pub enum MacError {
    /// Without its separators the text is not twelve bytes long.
    InvalidLength,
    /// One of the twelve bytes is not a hexadecimal digit.
    InvalidHex,
}

impl MacError {
    /// A sentence for the log.
    pub fn message(&self) -> (text: &'static str)
        ensures
            text@ == match *self {
                MacError::InvalidLength => "Invalid MAC address length"@,
                MacError::InvalidHex => "Invalid hex in MAC address"@,
            },
    {
        match self {
            MacError::InvalidLength => "Invalid MAC address length",
            MacError::InvalidHex => "Invalid hex in MAC address",
        }
    }
}

/// The separators that a hardware address may hold: `:` and `-`.
pub open spec fn is_separator(byte: u8) -> bool {
    byte == 0x3a || byte == 0x2d
}

/// The text without its separators.
pub open spec fn strip_separators(text: Seq<u8>) -> Seq<u8>
    decreases text.len(),
{
    if text.len() == 0 {
        Seq::empty()
    } else if is_separator(text.last()) {
        strip_separators(text.drop_last())
    } else {
        strip_separators(text.drop_last()).push(text.last())
    }
}

/// The value of a hexadecimal digit, in either case.
pub open spec fn hex_digit_value(byte: u8) -> Option<u8> {
    if 0x30 <= byte <= 0x39 {
        Some((byte - 0x30) as u8)
    } else if 0x61 <= byte <= 0x66 {
        Some((byte - 0x61 + 10) as u8)
    } else if 0x41 <= byte <= 0x46 {
        Some((byte - 0x41 + 10) as u8)
    } else {
        None
    }
}

/// Whether every byte is a hexadecimal digit.
pub open spec fn all_hex(digits: Seq<u8>) -> bool {
    forall|i: int| 0 <= i < digits.len() ==> (#[trigger] hex_digit_value(digits[i])) is Some
}

/// The octet that the digit pair at `2 * index` spells.
pub open spec fn octet_at(digits: Seq<u8>, index: int) -> u8 {
    (16 * hex_digit_value(digits[2 * index])->Some_0
        + hex_digit_value(digits[2 * index + 1])->Some_0) as u8
}

/// What a hardware address text means: once the separators are taken out,
/// exactly twelve hexadecimal digits must remain, and they spell six octets.
pub open spec fn mac_of(text: Seq<u8>) -> Result<Seq<u8>, MacError> {
    let digits = strip_separators(text);
    if digits.len() != 12 {
        Err(MacError::InvalidLength)
    } else if !all_hex(digits) {
        Err(MacError::InvalidHex)
    } else {
        Ok(Seq::new(6, |i: int| octet_at(digits, i)))
    }
}

proof fn lemma_strip_step(text: Seq<u8>, count: int)
    requires
        0 <= count < text.len(),
    ensures
        strip_separators(text.take(count + 1)) == if is_separator(text[count]) {
            strip_separators(text.take(count))
        } else {
            strip_separators(text.take(count)).push(text[count])
        },
{
    assert(text.take(count + 1).drop_last() =~= text.take(count));
}

fn hex_digit(byte: u8) -> (value: Option<u8>)
    ensures
        value == hex_digit_value(byte),
        value is Some ==> value->Some_0 < 16,
{
    if 0x30 <= byte && byte <= 0x39 {
        Some(byte - 0x30)
    } else if 0x61 <= byte && byte <= 0x66 {
        Some(byte - 0x61 + 10)
    } else if 0x41 <= byte && byte <= 0x46 {
        Some(byte - 0x41 + 10)
    } else {
        None
    }
}

/// Parses a hardware address written as hexadecimal octets, with `:` or `-`
/// between them or with no separator at all.
pub fn parse_mac_address(mac: &str) -> (parsed: Result<[u8; 6], MacError>)
    ensures
        parsed is Ok <==> mac_of(mac.spec_bytes()) is Ok,
        parsed is Ok ==> parsed->Ok_0@ == mac_of(mac.spec_bytes())->Ok_0,
        parsed is Err ==> parsed->Err_0 == mac_of(mac.spec_bytes())->Err_0,
{
    let text = mac.as_bytes();
    let mut digits: Vec<u8> = Vec::new();
    let mut at: usize = 0;
    while at < text.len()
        invariant
            at <= text.len(),
            digits@ == strip_separators(text@.take(at as int)),
        decreases text.len() - at,
    {
        proof {
            lemma_strip_step(text@, at as int);
        }
        let byte = text[at];
        if byte != 0x3a && byte != 0x2d {
            digits.push(byte);
        }
        at += 1;
    }
    assert(text@.take(at as int) =~= text@);
    if digits.len() != 12 {
        return Err(MacError::InvalidLength);
    }
    let mut octets: [u8; 6] = [0u8; 6];
    let mut index: usize = 0;
    while index < 6
        invariant
            index <= 6,
            digits@.len() == 12,
            digits@ == strip_separators(mac.spec_bytes()),
            forall|j: int| 0 <= j < 2 * index ==> (#[trigger] hex_digit_value(digits@[j])) is Some,
            forall|j: int| 0 <= j < index ==> octets@[j] == octet_at(digits@, j),
        decreases 6 - index,
    {
        let high = hex_digit(digits[2 * index]);
        let low = hex_digit(digits[2 * index + 1]);
        match (high, low) {
            (Some(high), Some(low)) => {
                octets[index] = 16 * high + low;
            },
            _ => {
                return Err(MacError::InvalidHex);
            },
        }
        index += 1;
    }
    Ok(octets)
}

/// Length of a magic packet: six bytes of `0xFF` and sixteen copies of the address.
pub const MAGIC_PACKET_LEN: usize = 102;

/// The magic packet for a hardware address of six octets.
pub open spec fn magic_packet_of(mac: Seq<u8>) -> Seq<u8> {
    Seq::new(
        102,
        |i: int|
            if i < 6 {
                0xffu8
            } else {
                mac[(i - 6) % 6]
            },
    )
}

/// Builds the magic packet that wakes the device with this hardware address.
pub fn magic_packet(mac: &[u8; 6]) -> (packet: Vec<u8>)
    ensures
        packet@ == magic_packet_of(mac@),
        packet@.len() == MAGIC_PACKET_LEN,
{
    let mut packet: Vec<u8> = Vec::new();
    let mut lead: usize = 0;
    while lead < 6
        invariant
            lead <= 6,
            packet@.len() == lead,
            forall|i: int| 0 <= i < lead ==> packet@[i] == 0xffu8,
        decreases 6 - lead,
    {
        packet.push(0xff);
        lead += 1;
    }
    let mut round: usize = 0;
    while round < 16
        invariant
            round <= 16,
            packet@.len() == 6 + 6 * round,
            forall|i: int| 0 <= i < 6 ==> packet@[i] == 0xffu8,
            forall|i: int| 6 <= i < 6 + 6 * round ==> packet@[i] == mac@[(i - 6) % 6],
        decreases 16 - round,
    {
        let mut octet: usize = 0;
        while octet < 6
            invariant
                octet <= 6,
                round < 16,
                packet@.len() == 6 + 6 * round + octet,
                forall|i: int| 0 <= i < 6 ==> packet@[i] == 0xffu8,
                forall|i: int| 6 <= i < 6 + 6 * round + octet ==> packet@[i] == mac@[(i - 6) % 6],
            decreases 6 - octet,
        {
            assert((6 * round + octet) % 6 == octet) by (nonlinear_arith)
                requires
                    octet < 6,
            ;
            packet.push(mac[octet]);
            octet += 1;
        }
        round += 1;
    }
    packet
}

/// The directed broadcast address of the device's subnet, for the private
/// ranges that are taken to be /24 networks: 192.168.x.x and 10.x.x.x.
pub open spec fn subnet_broadcast_of(ip: Seq<u8>) -> Option<Seq<u8>> {
    if (ip[0] == 192 && ip[1] == 168) || ip[0] == 10 {
        Some(seq![ip[0], ip[1], ip[2], 255u8])
    } else {
        None
    }
}

/// Computes the subnet-directed broadcast address for the device's address,
/// or `None` where the address lies in no recognised private range.
pub fn get_subnet_broadcast(ip: [u8; 4]) -> (broadcast: Option<[u8; 4]>)
    ensures
        broadcast is Some <==> subnet_broadcast_of(ip@) is Some,
        broadcast is Some ==> broadcast->Some_0@ == subnet_broadcast_of(ip@)->Some_0,
{
    if (ip[0] == 192 && ip[1] == 168) || ip[0] == 10 {
        Some([ip[0], ip[1], ip[2], 255])
    } else {
        None
    }
}

/// One of the three independent ways on which the packet travels.
#[derive(Debug, Clone, Copy, PartialEq, Eq, Structural)]
pub enum WakePath {
    /// Broadcast to `255.255.255.255`.
    GlobalBroadcast,
    /// Broadcast directed to the device's subnet.
    SubnetBroadcast,
    /// Unicast to the device's configured address.
    Unicast,
}

/// One delivery of the packet: the path it stands for and the IPv4 address it goes to.
#[derive(Debug, Clone, Copy)]
pub struct Delivery {
    /// The path that this delivery stands for.
    pub path: WakePath,
    /// The IPv4 address, most significant octet first.
    pub address: [u8; 4],
}

impl View for Delivery {
    type V = (WakePath, Seq<u8>);

    open spec fn view(&self) -> (WakePath, Seq<u8>) {
        (self.path, self.address@)
    }
}

/// Seconds after which a single delivery is given up.
pub const PATH_TIMEOUT_SECS: u64 = 2;

/// The UDP ports that every delivery sends to: the two legacy ports 7 and 9.
pub fn wake_ports() -> (ports: [u16; 2])
    ensures
        ports@ == seq![7u16, 9u16],
{
    [7, 9]
}

/// The deliveries for a device: always the global broadcast; with a known
/// device address also the subnet broadcast, where the address lies in a
/// recognised private range, and the unicast to the address itself.
pub open spec fn deliveries_for(device_ip: Option<Seq<u8>>) -> Seq<(WakePath, Seq<u8>)> {
    let global = seq![(WakePath::GlobalBroadcast, seq![255u8, 255u8, 255u8, 255u8])];
    match device_ip {
        None => global,
        Some(ip) => match subnet_broadcast_of(ip) {
            Some(subnet) => global.push((WakePath::SubnetBroadcast, subnet)).push(
                (WakePath::Unicast, ip),
            ),
            None => global.push((WakePath::Unicast, ip)),
        },
    }
}

/// Everything a wake attempt sends: the packet, where it goes, and how long
/// each delivery may take.
#[derive(Debug, Clone)]
pub struct WakePlan {
    /// The magic packet.
    pub packet: Vec<u8>,
    /// The deliveries, in the order in which they are tried.
    pub deliveries: Vec<Delivery>,
    /// The UDP ports that every delivery sends the packet to.
    pub ports: [u16; 2],
    /// Seconds after which a single delivery is given up, so that a slow
    /// path cannot hold up the others.
    pub path_timeout_secs: u64,
}

impl WakePlan {
    /// The deliveries as plain values.
    pub open spec fn routes(&self) -> Seq<(WakePath, Seq<u8>)> {
        Seq::new(self.deliveries@.len(), |i: int| self.deliveries@[i]@)
    }
}

/// Plans a wake attempt. A hardware address that does not parse is the one
/// hard error, raised before anything is sent. `device_ip` is the device's
/// configured IPv4 address, or `None` where the configured text is no IPv4
/// address.
pub fn plan_wake(mac: &str, device_ip: Option<[u8; 4]>) -> (plan: Result<WakePlan, MacError>)
    ensures
        plan is Ok <==> mac_of(mac.spec_bytes()) is Ok,
        plan is Err ==> plan->Err_0 == mac_of(mac.spec_bytes())->Err_0,
        plan is Ok ==> plan->Ok_0.packet@ == magic_packet_of(mac_of(mac.spec_bytes())->Ok_0),
        plan is Ok ==> plan->Ok_0.routes() == deliveries_for(
            match device_ip {
                Some(ip) => Some(ip@),
                None => None,
            },
        ),
        plan is Ok ==> plan->Ok_0.ports@ == seq![7u16, 9u16],
        plan is Ok ==> plan->Ok_0.path_timeout_secs == PATH_TIMEOUT_SECS,
{
    let address = match parse_mac_address(mac) {
        Ok(address) => address,
        Err(error) => {
            return Err(error);
        },
    };
    let packet = magic_packet(&address);
    let mut deliveries: Vec<Delivery> = Vec::new();
    deliveries.push(Delivery { path: WakePath::GlobalBroadcast, address: [255, 255, 255, 255] });
    if let Some(ip) = device_ip {
        if let Some(subnet) = get_subnet_broadcast(ip) {
            deliveries.push(Delivery { path: WakePath::SubnetBroadcast, address: subnet });
        }
        deliveries.push(Delivery { path: WakePath::Unicast, address: ip });
    }
    let plan = WakePlan {
        packet,
        deliveries,
        ports: wake_ports(),
        path_timeout_secs: PATH_TIMEOUT_SECS,
    };
    assert(plan.routes() =~= deliveries_for(
        match device_ip {
            Some(ip) => Some(ip@),
            None => None,
        },
    ));
    Ok(plan)
}

/// How one delivery ended.
#[derive(Debug, Clone, Copy, PartialEq, Eq, Structural)]
pub enum PathOutcome {
    /// The packet went out on both ports.
    Sent,
    /// Sending failed.
    Failed,
    /// Sending did not finish within the path's timeout.
    TimedOut,
}

/// A wake attempt succeeded if any of its deliveries did.
pub open spec fn any_sent(outcomes: Seq<PathOutcome>) -> bool {
    exists|i: int| 0 <= i < outcomes.len() && outcomes[i] == PathOutcome::Sent
}

/// Sums up a wake attempt from the outcomes of its deliveries. The result is
/// advisory: a failed attempt is logged and the caller goes on.
pub fn wake_succeeded(outcomes: &[PathOutcome]) -> (success: bool)
    ensures
        success == any_sent(outcomes@),
{
    let mut at: usize = 0;
    while at < outcomes.len()
        invariant
            at <= outcomes.len(),
            forall|i: int| 0 <= i < at ==> outcomes@[i] != PathOutcome::Sent,
        decreases outcomes.len() - at,
    {
        if outcomes[at] == PathOutcome::Sent {
            return true;
        }
        at += 1;
    }
    false
}

} // verus!
