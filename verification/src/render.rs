use vstd::prelude::*;

use crate::model::IpAddress;
use crate::model::Server;
use crate::model::ServerStatus;

verus! {

/// The character for one digit value below sixteen: '0'..'9', then 'a'..'f'.
pub open spec fn digit_char(d: nat) -> char {
    if d == 0 {
        '0'
    } else if d == 1 {
        '1'
    } else if d == 2 {
        '2'
    } else if d == 3 {
        '3'
    } else if d == 4 {
        '4'
    } else if d == 5 {
        '5'
    } else if d == 6 {
        '6'
    } else if d == 7 {
        '7'
    } else if d == 8 {
        '8'
    } else if d == 9 {
        '9'
    } else if d == 10 {
        'a'
    } else if d == 11 {
        'b'
    } else if d == 12 {
        'c'
    } else if d == 13 {
        'd'
    } else if d == 14 {
        'e'
    } else {
        'f'
    }
}

/// Decimal text of a number: most significant digit first, no leading
/// zeros, and a single '0' for zero itself.
pub open spec fn dec_seq(n: nat) -> Seq<char>
    decreases n,
{
    if n < 10 {
        seq![digit_char(n)]
    } else {
        dec_seq(n / 10) + seq![digit_char(n % 10)]
    }
}

/// Hexadecimal text of a number: lower case, most significant digit first,
/// no leading zeros, and a single '0' for zero itself.
pub open spec fn hex_seq(n: nat) -> Seq<char>
    decreases n,
{
    if n < 16 {
        seq![digit_char(n)]
    } else {
        hex_seq(n / 16) + seq![digit_char(n % 16)]
    }
}

/// The one-character text for a digit value below sixteen.
fn digit_str(d: u8) -> (r: &'static str)
    requires
        d < 16,
    ensures
        r@ == seq![digit_char(d as nat)],
{
    let r: &'static str = match d {
        0 => "0",
        1 => "1",
        2 => "2",
        3 => "3",
        4 => "4",
        5 => "5",
        6 => "6",
        7 => "7",
        8 => "8",
        9 => "9",
        10 => "a",
        11 => "b",
        12 => "c",
        13 => "d",
        14 => "e",
        _ => "f",
    };
    proof {
        reveal_strlit("0");
        reveal_strlit("1");
        reveal_strlit("2");
        reveal_strlit("3");
        reveal_strlit("4");
        reveal_strlit("5");
        reveal_strlit("6");
        reveal_strlit("7");
        reveal_strlit("8");
        reveal_strlit("9");
        reveal_strlit("a");
        reveal_strlit("b");
        reveal_strlit("c");
        reveal_strlit("d");
        reveal_strlit("e");
        reveal_strlit("f");
        assert(r@ =~= seq![digit_char(d as nat)]);
    }
    r
}

/// Decimal text of a byte, as used for one part of a dotted IPv4 address.
pub fn u8_to_dec(n: u8) -> (r: String)
    ensures
        r@ == dec_seq(n as nat),
{
    let mut s = String::new();
    if n >= 100 {
        s.append(digit_str(n / 100));
    }
    if n >= 10 {
        s.append(digit_str((n / 10) % 10));
    }
    s.append(digit_str(n % 10));
    proof {
        reveal_with_fuel(dec_seq, 4);
        if n >= 100 {
            vstd::arithmetic::div_mod::lemma_div_denominator(n as int, 10, 10);
            assert(n as nat / 10 / 10 == n as nat / 100);
            assert(n as nat / 100 < 10);
            assert(s@ =~= dec_seq(n as nat));
        } else if n >= 10 {
            assert(n as nat / 10 < 10);
            assert(n as nat / 10 % 10 == n as nat / 10);
            assert(s@ =~= dec_seq(n as nat));
        } else {
            assert(s@ =~= dec_seq(n as nat));
        }
    }
    s
}

/// Hexadecimal text of one 16-bit group of an IPv6 address.
pub fn u16_to_hex(n: u16) -> (r: String)
    ensures
        r@ == hex_seq(n as nat),
{
    let mut s = String::new();
    if n >= 4096 {
        s.append(digit_str((n / 4096) as u8));
    }
    if n >= 256 {
        s.append(digit_str(((n / 256) % 16) as u8));
    }
    if n >= 16 {
        s.append(digit_str(((n / 16) % 16) as u8));
    }
    s.append(digit_str((n % 16) as u8));
    proof {
        reveal_with_fuel(hex_seq, 5);
        vstd::arithmetic::div_mod::lemma_div_denominator(n as int, 16, 16);
        assert(n as nat / 16 / 16 == n as nat / 256);
        vstd::arithmetic::div_mod::lemma_div_denominator(n as int, 256, 16);
        assert(n as nat / 256 / 16 == n as nat / 4096);
        assert(n as nat / 4096 < 16);
        if n >= 4096 {
            assert(s@ =~= hex_seq(n as nat));
        } else if n >= 256 {
            assert(n as nat / 256 % 16 == n as nat / 256);
            assert(s@ =~= hex_seq(n as nat));
        } else if n >= 16 {
            assert(n as nat / 16 % 16 == n as nat / 16);
            assert(s@ =~= hex_seq(n as nat));
        } else {
            assert(s@ =~= hex_seq(n as nat));
        }
    }
    s
}

/// Dotted decimal text of an IPv4 address; colon-separated lower-case
/// hexadecimal groups (full form, no zero compression) for IPv6.
pub open spec fn ip_text(ip: IpAddress) -> Seq<char> {
    match ip {
        IpAddress::V4 { a, b, c, d } => dec_seq(a as nat) + "."@ + dec_seq(b as nat) + "."@
            + dec_seq(c as nat) + "."@ + dec_seq(d as nat),
        IpAddress::V6 { g0, g1, g2, g3, g4, g5, g6, g7 } => hex_seq(g0 as nat) + ":"@ + hex_seq(
            g1 as nat,
        ) + ":"@ + hex_seq(g2 as nat) + ":"@ + hex_seq(g3 as nat) + ":"@ + hex_seq(g4 as nat)
            + ":"@ + hex_seq(g5 as nat) + ":"@ + hex_seq(g6 as nat) + ":"@ + hex_seq(g7 as nat),
    }
}

/// Textual form of an address, exactly `ip_text`.
pub fn format_ip(ip: &IpAddress) -> (r: String)
    ensures
        r@ == ip_text(*ip),
{
    match ip {
        IpAddress::V4 { a, b, c, d } => {
            let mut s = u8_to_dec(*a);
            s.append(".");
            let p = u8_to_dec(*b);
            s.append(p.as_str());
            s.append(".");
            let p = u8_to_dec(*c);
            s.append(p.as_str());
            s.append(".");
            let p = u8_to_dec(*d);
            s.append(p.as_str());
            s
        },
        IpAddress::V6 { g0, g1, g2, g3, g4, g5, g6, g7 } => {
            let mut s = u16_to_hex(*g0);
            s.append(":");
            let p = u16_to_hex(*g1);
            s.append(p.as_str());
            s.append(":");
            let p = u16_to_hex(*g2);
            s.append(p.as_str());
            s.append(":");
            let p = u16_to_hex(*g3);
            s.append(p.as_str());
            s.append(":");
            let p = u16_to_hex(*g4);
            s.append(p.as_str());
            s.append(":");
            let p = u16_to_hex(*g5);
            s.append(p.as_str());
            s.append(":");
            let p = u16_to_hex(*g6);
            s.append(p.as_str());
            s.append(":");
            let p = u16_to_hex(*g7);
            s.append(p.as_str());
            s
        },
    }
}

/// The label shown for a status.
pub open spec fn status_text(st: ServerStatus) -> Seq<char> {
    match st {
        ServerStatus::Available => "Available"@,
        ServerStatus::Busy => "Busy"@,
        ServerStatus::Offline => "Offline"@,
    }
}

/// The label shown for a status, exactly `status_text`.
pub fn status_str(st: &ServerStatus) -> (r: &'static str)
    ensures
        r@ == status_text(*st),
{
    match st {
        ServerStatus::Available => "Available",
        ServerStatus::Busy => "Busy",
        ServerStatus::Offline => "Offline",
    }
}

/// The name shown for a server: its display name, or a fixed placeholder
/// when it has none.
pub open spec fn name_text(name: Option<String>) -> Seq<char> {
    match name {
        Some(n) => n@,
        None => "(unnamed)"@,
    }
}

/// One list entry of the server-status page.
pub open spec fn server_entry(s: Server) -> Seq<char> {
    "<li>"@ + name_text(s.name) + " ("@ + ip_text(s.ip) + ", "@ + status_text(s.status)
        + ")</li>"@
}

/// The list entries for a sequence of servers, in order.
pub open spec fn entries_text(ss: Seq<Server>) -> Seq<char>
    decreases ss.len(),
{
    if ss.len() == 0 {
        Seq::empty()
    } else {
        entries_text(ss.drop_last()) + server_entry(ss.last())
    }
}

/// One list entry of the server-status page, exactly `server_entry`.
pub fn render_entry(s: &Server) -> (r: String)
    ensures
        r@ == server_entry(*s),
{
    let mut e: String = "<li>".to_owned();
    match &s.name {
        Some(n) => {
            e.append(n.as_str());
        },
        None => {
            e.append("(unnamed)");
        },
    }
    e.append(" (");
    let ip = format_ip(&s.ip);
    e.append(ip.as_str());
    e.append(", ");
    e.append(status_str(&s.status));
    e.append(")</li>");
    e
}

/// The greeting shown on the home page.
pub open spec fn root_greeting() -> Seq<char> {
    "Welcome to the server status page!"@
}

/// The markup of the home page before the greeting.
pub open spec fn root_prefix() -> Seq<char> {
    "<!DOCTYPE html><html><head><title>Web UI</title></head><body><h1>"@
}

/// The markup of the home page after the greeting.
pub open spec fn root_suffix() -> Seq<char> {
    "</h1></body></html>"@
}

/// The whole home page.
pub open spec fn root_html() -> Seq<char> {
    root_prefix() + root_greeting() + root_suffix()
}

/// The markup of the server-status page before its list entries.
pub open spec fn list_prefix() -> Seq<char> {
    "<!DOCTYPE html><html><head><title>Server Status</title></head><body><h1>Server Status</h1><ul>"@
}

/// The markup of the server-status page after its list entries.
pub open spec fn list_suffix() -> Seq<char> {
    "</ul></body></html>"@
}

/// The whole server-status page for a sequence of servers.
pub open spec fn server_list_html(ss: Seq<Server>) -> Seq<char> {
    list_prefix() + entries_text(ss) + list_suffix()
}

/// View-model of the home page; holds no data.
#[derive(Clone, Debug)]
pub struct RootPage;

impl RootPage {
    /// Renders the home page; the result is exactly `root_html`.
    pub fn render(&self) -> (r: String)
        ensures
            r@ == root_html(),
    {
        let mut s: String =
            "<!DOCTYPE html><html><head><title>Web UI</title></head><body><h1>".to_owned();
        s.append("Welcome to the server status page!");
        s.append("</h1></body></html>");
        s
    }
}

/// View-model of the server-status page: the servers it lists, in order.
#[derive(Clone, Debug)]
pub struct ServerListPage {
    pub servers: Vec<Server>,
}

impl ServerListPage {
    /// Renders the server-status page; the result is exactly
    /// `server_list_html` of the held servers.
    pub fn render(&self) -> (r: String)
        ensures
            r@ == server_list_html(self.servers@),
    {
        let mut s: String =
            "<!DOCTYPE html><html><head><title>Server Status</title></head><body><h1>Server Status</h1><ul>".to_owned();
        proof {
            assert(self.servers@.take(0) =~= Seq::<Server>::empty());
            assert(s@ =~= list_prefix() + entries_text(self.servers@.take(0)));
        }
        let mut i: usize = 0;
        while i < self.servers.len()
            invariant
                i <= self.servers.len(),
                s@ == list_prefix() + entries_text(self.servers@.take(i as int)),
            decreases self.servers.len() - i,
        {
            let e = render_entry(&self.servers[i]);
            s.append(e.as_str());
            proof {
                assert(self.servers@.take(i as int + 1).drop_last() =~= self.servers@.take(
                    i as int,
                ));
                assert(self.servers@.take(i as int + 1).last() == self.servers@[i as int]);
                assert(s@ =~= list_prefix() + entries_text(self.servers@.take(i as int + 1)));
            }
            i += 1;
        }
        s.append("</ul></body></html>");
        proof {
            assert(self.servers@.take(self.servers@.len() as int) =~= self.servers@);
        }
        s
    }
}

} // verus!
