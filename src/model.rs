use vstd::prelude::*;

verus! {

/// A hardware (MAC) address.
#[derive(Debug, Copy, Clone, PartialEq, Eq)]
pub struct MacAddr {
    pub octets: [u8; 6],
}

/// The kind of a discovered service.
#[derive(Debug, Copy, Clone, PartialEq, Eq, Structural)]
pub enum ServiceKind {
    Rtsp,
    Mjpeg,
    Http,
    Tcp,
}

/// A service descriptor. Descriptors with the same `id` describe the same
/// service.
#[derive(Debug, Copy, Clone, PartialEq, Eq)]
pub struct Service {
    pub id: u64,
    pub kind: ServiceKind,
    pub mac: MacAddr,
    /// IPv4 address, most significant octet first.
    pub ip: u32,
    pub port: u16,
}

/// A host found on the local network.
#[derive(Debug, Copy, Clone, PartialEq, Eq)]
pub struct Host {
    pub mac: MacAddr,
    /// IPv4 address, most significant octet first.
    pub ip: u32,
}

/// Summary of a local network scan.
#[derive(Debug)]
pub struct ScanReport {
    pub hosts: Vec<Host>,
    pub services: Vec<Service>,
}

/// A copy of a vector of plain values.
pub fn copy_items<T: Copy>(v: &Vec<T>) -> (r: Vec<T>)
    ensures
        r@ == v@,
{
    let mut r: Vec<T> = Vec::new();
    let mut i: usize = 0;
    while i < v.len()
        invariant
            i <= v@.len(),
            r@ == v@.subrange(0, i as int),
        decreases v@.len() - i,
    {
        r.push(v[i]);
        i = i + 1;
        proof {
            assert(r@ =~= v@.subrange(0, i as int));
        }
    }
    proof {
        assert(r@ =~= v@);
    }
    r
}

impl View for ScanReport {
    type V = (Seq<Host>, Seq<Service>);

    open spec fn view(&self) -> (Seq<Host>, Seq<Service>) {
        (self.hosts@, self.services@)
    }
}

impl ScanReport {
    /// An empty report.
    pub fn new() -> (r: ScanReport)
        ensures
            r@ == (Seq::<Host>::empty(), Seq::<Service>::empty()),
    {
        ScanReport { hosts: Vec::new(), services: Vec::new() }
    }

    /// An independent copy of the report.
    pub fn copy(&self) -> (r: ScanReport)
        ensures
            r@ == self@,
    {
        ScanReport { hosts: copy_items(&self.hosts), services: copy_items(&self.services) }
    }
}

} // verus!
