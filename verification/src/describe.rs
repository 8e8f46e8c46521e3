//! Descriptions of settings in words, for a person to read.

use crate::constraints::Constraint;
use crate::net::{CustomTunnelEndpoint, IpVersion, TransportProtocol, TunnelType};
use vstd::prelude::*;
use vstd::string::StringExecFns;

verus! {

/// A value that can be described in words.
pub trait Describe {
    /// The words that describe the value.
    spec fn description(&self) -> Seq<char>;

    fn describe(&self) -> (text: String)
        ensures
            text@ == self.description(),
    ;
}

/// The character that stands for a digit.
pub open spec fn digit_char(digit: nat) -> char {
    if digit == 0 {
        '0'
    } else if digit == 1 {
        '1'
    } else if digit == 2 {
        '2'
    } else if digit == 3 {
        '3'
    } else if digit == 4 {
        '4'
    } else if digit == 5 {
        '5'
    } else if digit == 6 {
        '6'
    } else if digit == 7 {
        '7'
    } else if digit == 8 {
        '8'
    } else {
        '9'
    }
}

/// A number in decimal, without leading zeros.
pub open spec fn decimal(number: nat) -> Seq<char>
    decreases number,
{
    if number < 10 {
        seq![digit_char(number)]
    } else {
        decimal(number / 10).push(digit_char(number % 10))
    }
}

/// The text of one digit.
fn digit_text(digit: u8) -> (text: &'static str)
    requires
        digit < 10,
    ensures
        text@ == seq![digit_char(digit as nat)],
{
    proof {
        reveal_strlit("0");
        reveal_strlit("1");
        reveal_strlit("2");
        reveal_strlit("3");
        reveal_strlit("4");
        reveal_strlit("5");
        reveal_strlit("6");
        reveal_strlit("7");
        reveal_strlit("8");
        reveal_strlit("9");
    }
    let text = if digit == 0 {
        "0"
    } else if digit == 1 {
        "1"
    } else if digit == 2 {
        "2"
    } else if digit == 3 {
        "3"
    } else if digit == 4 {
        "4"
    } else if digit == 5 {
        "5"
    } else if digit == 6 {
        "6"
    } else if digit == 7 {
        "7"
    } else if digit == 8 {
        "8"
    } else {
        "9"
    };
    assert(text@ =~= seq![digit_char(digit as nat)]);
    text
}

/// Writes a number out in decimal.
pub fn decimal_string(number: u64) -> (text: String)
    ensures
        text@ == decimal(number as nat),
    decreases number,
{
    if number < 10 {
        String::from_str(digit_text(number as u8))
    } else {
        let mut text = decimal_string(number / 10);
        text.append(digit_text((number % 10) as u8));
        text
    }
}

/// A number in decimal, with a minus sign before it if it is below zero.
pub open spec fn signed_decimal(number: int) -> Seq<char> {
    if number < 0 {
        "-"@ + decimal((-number) as nat)
    } else {
        decimal(number as nat)
    }
}

/// Writes a number out in decimal, with its sign if it is below zero.
pub fn signed_decimal_string(number: i64) -> (text: String)
    ensures
        text@ == signed_decimal(number as int),
{
    if number < 0 {
        let magnitude: u64 = if number == i64::MIN {
            0x8000_0000_0000_0000
        } else {
            (-number) as u64
        };
        let mut text = String::from_str("-");
        text.append(decimal_string(magnitude).as_str());
        text
    } else {
        decimal_string(number as u64)
    }
}

/// The words for a constraint on a port.
pub open spec fn port_description(port: Constraint<u16>) -> Seq<char> {
    match port {
        Constraint::Any => "any port"@,
        Constraint::Only(port) => "port "@ + decimal(port as nat),
    }
}

/// Describes a constraint on a port: `any port`, or `port` and the number.
pub fn describe_port(port: Constraint<u16>) -> (text: String)
    ensures
        text@ == port_description(port),
{
    match port {
        Constraint::Any => String::from_str("any port"),
        Constraint::Only(port) => {
            let mut text = String::from_str("port ");
            text.append(decimal_string(port as u64).as_str());
            text
        },
    }
}

/// An open constraint is described as `any`, and another as the value that it
/// asks for.
impl<T: Describe> Describe for Constraint<T> {
    open spec fn description(&self) -> Seq<char> {
        match self {
            Constraint::Any => "any"@,
            Constraint::Only(value) => value.description(),
        }
    }

    fn describe(&self) -> (text: String) {
        match self {
            Constraint::Any => String::from_str("any"),
            Constraint::Only(value) => value.describe(),
        }
    }
}

impl Describe for TransportProtocol {
    open spec fn description(&self) -> Seq<char> {
        match self {
            TransportProtocol::Udp => "UDP"@,
            TransportProtocol::Tcp => "TCP"@,
        }
    }

    fn describe(&self) -> (text: String) {
        match self {
            TransportProtocol::Udp => String::from_str("UDP"),
            TransportProtocol::Tcp => String::from_str("TCP"),
        }
    }
}

impl Describe for IpVersion {
    open spec fn description(&self) -> Seq<char> {
        match self {
            IpVersion::V4 => "IPv4"@,
            IpVersion::V6 => "IPv6"@,
        }
    }

    fn describe(&self) -> (text: String) {
        match self {
            IpVersion::V4 => String::from_str("IPv4"),
            IpVersion::V6 => String::from_str("IPv6"),
        }
    }
}

impl Describe for TunnelType {
    open spec fn description(&self) -> Seq<char> {
        match self {
            TunnelType::OpenVpn => "OpenVPN"@,
            TunnelType::Wireguard => "WireGuard"@,
        }
    }

    fn describe(&self) -> (text: String) {
        match self {
            TunnelType::OpenVpn => String::from_str("OpenVPN"),
            TunnelType::Wireguard => String::from_str("WireGuard"),
        }
    }
}

/// A custom endpoint is described by its host, its port and its transport
/// protocol: `host:port/protocol`.
impl Describe for CustomTunnelEndpoint {
    open spec fn description(&self) -> Seq<char> {
        self.host@ + ":"@ + decimal(self.endpoint.address.port as nat) + "/"@
            + self.endpoint.protocol.description()
    }

    fn describe(&self) -> (text: String) {
        let mut text = self.host.clone();
        text.append(":");
        text.append(decimal_string(self.endpoint.address.port as u64).as_str());
        text.append("/");
        text.append(self.endpoint.protocol.describe().as_str());
        text
    }
}

/// The views of the texts in `texts`, in order.
pub open spec fn text_views(texts: Seq<String>) -> Seq<Seq<char>> {
    texts.map_values(|text: String| text@)
}

/// Texts put one after the other, with a comma and a space between each
/// two.
pub open spec fn comma_separated(texts: Seq<Seq<char>>) -> Seq<char>
    decreases texts.len(),
{
    if texts.len() == 0 {
        Seq::empty()
    } else if texts.len() == 1 {
        texts[0]
    } else {
        comma_separated(texts.drop_last()) + ", "@ + texts.last()
    }
}

/// Puts texts one after the other, with a comma and a space between each
/// two.
pub fn separate_by_commas(texts: &Vec<String>) -> (text: String)
    ensures
        text@ == comma_separated(text_views(texts@)),
{
    let mut text = String::new();
    let mut index: usize = 0;
    assert(text_views(texts@).take(0) =~= Seq::<Seq<char>>::empty());
    while index < texts.len()
        invariant
            index <= texts@.len(),
            text@ == comma_separated(text_views(texts@).take(index as int)),
        decreases texts@.len() - index,
    {
        let ghost before = text_views(texts@).take(index as int);
        let ghost next = text_views(texts@).take(index + 1);
        assert(next.drop_last() =~= before);
        assert(next.last() == texts@[index as int]@);
        if index > 0 {
            text.append(", ");
        } else {
            assert(text@ + texts@[index as int]@ =~= texts@[index as int]@);
        }
        text.append(texts[index].as_str());
        index += 1;
    }
    assert(text_views(texts@).take(index as int) =~= text_views(texts@));
    text
}

} // verus!
