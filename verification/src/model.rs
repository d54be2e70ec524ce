use vstd::prelude::*;

verus! {

/// Condition of one monitored server. A closed enumeration with exactly
/// three variants; purely descriptive, no transitions are defined.
#[derive(Clone, Copy, Debug, PartialEq, Eq, Structural)]
pub enum ServerStatus {
    Available,
    Busy,
    Offline,
}

/// An IP address held as plain numeric parts, so that its textual form is a
/// function of the value that can be computed and reasoned about directly.
#[derive(Clone, Copy, Debug, PartialEq, Eq, Structural)]
pub enum IpAddress {
    V4 { a: u8, b: u8, c: u8, d: u8 },
    V6 { g0: u16, g1: u16, g2: u16, g3: u16, g4: u16, g5: u16, g6: u16, g7: u16 },
}

/// One monitored server: an optional display name, its address, and its
/// current status. Created fresh per request and discarded afterwards.
#[derive(Clone, Debug)]
pub struct Server {
    pub name: Option<String>,
    pub ip: IpAddress,
    pub status: ServerStatus,
}

/// The fixed sample data shown on the server-status page: exactly three
/// records, in a fixed order, built anew on every call (no shared state).
pub fn sample_servers() -> (r: Vec<Server>)
    ensures
        r@.len() == 3,
        r@[0].name matches Some(n) && n@ == "Server 1"@,
        r@[0].ip == (IpAddress::V4 { a: 127, b: 0, c: 0, d: 1 }),
        r@[0].status == ServerStatus::Available,
        r@[1].name matches Some(n) && n@ == "Server 2"@,
        r@[1].ip == (IpAddress::V4 { a: 127, b: 0, c: 0, d: 2 }),
        r@[1].status == ServerStatus::Busy,
        r@[2].name is None,
        r@[2].ip == (IpAddress::V4 { a: 127, b: 0, c: 0, d: 3 }),
        r@[2].status == ServerStatus::Offline,
{
    let mut v: Vec<Server> = Vec::new();
    v.push(Server {
        name: Some("Server 1".to_owned()),
        ip: IpAddress::V4 { a: 127, b: 0, c: 0, d: 1 },
        status: ServerStatus::Available,
    });
    v.push(Server {
        name: Some("Server 2".to_owned()),
        ip: IpAddress::V4 { a: 127, b: 0, c: 0, d: 2 },
        status: ServerStatus::Busy,
    });
    v.push(Server {
        name: None,
        ip: IpAddress::V4 { a: 127, b: 0, c: 0, d: 3 },
        status: ServerStatus::Offline,
    });
    v
}

} // verus!
