//! Serial-port discovery: listing candidate ports and recognizing the
//! device among them by its USB vendor and product identifiers.

use vstd::prelude::*;

use crate::hardware::M8_PID_MULTICHANNEL;
use crate::hardware::M8_PID_STEREO;
use crate::hardware::M8_VID;

verus! {

/// The USB identifiers of a port.
#[derive(Clone, Copy, Debug, PartialEq, Eq, Structural)]
pub struct UsbId {
    pub vid: u16,
    pub pid: u16,
}

/// What this core reads of one serial port: its name, and its USB
/// identifiers when it is a USB port.
#[derive(Clone, Debug)]
pub struct PortInfo {
    pub name: String,
    pub usb: Option<UsbId>,
}

/// A port is the device when it is a USB port with the device's vendor
/// identifier and either of its product identifiers.
pub open spec fn spec_is_valid_port(port: PortInfo) -> bool {
    match port.usb {
        Some(id) => id.vid == M8_VID && (id.pid == M8_PID_STEREO || id.pid
            == M8_PID_MULTICHANNEL),
        None => false,
    }
}

/// Checks whether a serial port is the device, by vendor and product
/// identifier.
pub fn is_valid_serial_port(port: &PortInfo) -> (r: bool)
    ensures
        r == spec_is_valid_port(*port),
{
    match &port.usb {
        Some(id) => id.vid == M8_VID && (id.pid == M8_PID_STEREO || id.pid
            == M8_PID_MULTICHANNEL),
        None => false,
    }
}

/// Relies on serialport::available_ports: one entry per serial port on the
/// system, naming the port, with its vendor and product identifiers when the
/// port is connected over USB. An enumeration error yields no ports. One
/// caveat: on Linux the crate scans /sys/class/tty and panics, rather than
/// erring, when that directory itself is missing — a system without sysfs
/// mounted cannot use this backend.
#[verifier::external_body]
fn available_ports_info() -> (r: Vec<PortInfo>) {
    serialport::available_ports()
        .unwrap_or(Vec::new())
        .into_iter()
        .map(|info| PortInfo {
            name: info.port_name,
            usb: match info.port_type {
                serialport::SerialPortType::UsbPort(usb) => Some(
                    UsbId { vid: usb.vid, pid: usb.pid },
                ),
                _ => None,
            },
        })
        .collect()
}

/// The names of the given ports, keeping only the device's ports when
/// `valid_only` is set, in the given order.
pub open spec fn spec_port_names(ports: Seq<PortInfo>, valid_only: bool) -> Seq<Seq<char>>
    decreases ports.len(),
{
    if ports.len() == 0 {
        Seq::empty()
    } else {
        let rest = spec_port_names(ports.drop_first(), valid_only);
        if !valid_only || spec_is_valid_port(ports[0]) {
            seq![ports[0].name@] + rest
        } else {
            rest
        }
    }
}

proof fn lemma_port_names_snoc(ports: Seq<PortInfo>, p: PortInfo, valid_only: bool)
    ensures
        spec_port_names(ports.push(p), valid_only) == if !valid_only || spec_is_valid_port(p) {
            spec_port_names(ports, valid_only).push(p.name@)
        } else {
            spec_port_names(ports, valid_only)
        },
    decreases ports.len(),
{
    let pp = ports.push(p);
    if ports.len() == 0 {
        assert(pp[0] == p);
        assert(pp.drop_first() =~= Seq::<PortInfo>::empty());
        assert(spec_port_names(pp.drop_first(), valid_only) == Seq::<Seq<char>>::empty());
        if !valid_only || spec_is_valid_port(p) {
            assert(spec_port_names(pp, valid_only) =~= spec_port_names(ports, valid_only).push(
                p.name@,
            ));
        }
    } else {
        assert(pp[0] == ports[0]);
        assert(pp.drop_first() =~= ports.drop_first().push(p));
        lemma_port_names_snoc(ports.drop_first(), p, valid_only);
        if !valid_only || spec_is_valid_port(p) {
            assert(spec_port_names(pp, valid_only) =~= spec_port_names(ports, valid_only).push(
                p.name@,
            ));
        } else {
            assert(spec_port_names(pp, valid_only) =~= spec_port_names(ports, valid_only));
        }
    }
}

/// Extracts the port names from an enumeration, filtering for the device's
/// ports when asked to.
pub fn filter_port_names(ports: &Vec<PortInfo>, valid_only: bool) -> (r: Vec<String>)
    ensures
        r.deep_view() == spec_port_names(ports@, valid_only),
{
    let mut r: Vec<String> = Vec::new();
    let mut i: usize = 0;
    proof {
        assert(ports@.subrange(0, 0) =~= Seq::<PortInfo>::empty());
        assert(r.deep_view() =~= Seq::<Seq<char>>::empty());
    }
    while i < ports.len()
        invariant
            i <= ports@.len(),
            r.deep_view() == spec_port_names(ports@.subrange(0, i as int), valid_only),
        decreases ports@.len() - i,
    {
        let ghost prefix = ports@.subrange(0, i as int);
        let ghost old_names = r.deep_view();
        let port = &ports[i];
        if !valid_only || is_valid_serial_port(port) {
            let name = port.name.clone();
            proof {
                assert(name@ == port.name@);
            }
            r.push(name);
            proof {
                assert(r.deep_view() =~= old_names.push(ports@[i as int].name@));
            }
        }
        proof {
            assert(ports@.subrange(0, i + 1) =~= prefix.push(ports@[i as int]));
            lemma_port_names_snoc(prefix, ports@[i as int], valid_only);
        }
        i = i + 1;
    }
    proof {
        assert(ports@.subrange(0, ports@.len() as int) =~= ports@);
    }
    r
}

/// Lists the available serial ports by name; with `valid_only`, only those
/// that are the device. What comes back depends on the machine; the
/// filtering itself is exact (see `filter_port_names`).
pub fn get_serial_ports(valid_only: bool) -> (r: Vec<String>)
    ensures
        exists|ports: Seq<PortInfo>| r.deep_view() == spec_port_names(ports, valid_only),
{
    let ports = available_ports_info();
    let r = filter_port_names(&ports, valid_only);
    proof {
        assert(r.deep_view() == spec_port_names(ports@, valid_only));
    }
    r
}

/// Whether `names` holds `path`.
pub fn names_contain(names: &Vec<String>, path: &String) -> (r: bool)
    ensures
        r == names.deep_view().contains(path@),
{
    let mut i: usize = 0;
    while i < names.len()
        invariant
            i <= names@.len(),
            forall|j: int| 0 <= j < i ==> names@[j]@ != path@,
        decreases names@.len() - i,
    {
        if names[i].eq(path) {
            assert(names.deep_view()[i as int] == names@[i as int]@);
            assert(names.deep_view().contains(path@));
            return true;
        }
        i = i + 1;
    }
    assert forall|j: int| 0 <= j < names.deep_view().len() implies names.deep_view()[j]
        != path@ by {
        assert(names.deep_view()[j] == names@[j]@);
    }
    assert(!names.deep_view().contains(path@));
    false
}

/// Whether a path names a serial port of the device that exists right now.
pub fn is_valid_serial_port_path(path: &str) -> (r: bool) {
    let names = get_serial_ports(true);
    let owned = path.to_owned();
    names_contain(&names, &owned)
}

} // verus!
