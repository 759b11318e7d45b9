//! Text for the log: numbers, bytes, addresses and the names of the reports
//! of the access layers.

use crate::address::BdAddr;
use vstd::prelude::*;
use vstd::string::StringExecFns;

verus! {

/// One digit, of a number below sixteen, in lower case.
pub open spec fn hex_digit(n: int) -> Seq<char> {
    if n == 0 {
        "0"@
    } else if n == 1 {
        "1"@
    } else if n == 2 {
        "2"@
    } else if n == 3 {
        "3"@
    } else if n == 4 {
        "4"@
    } else if n == 5 {
        "5"@
    } else if n == 6 {
        "6"@
    } else if n == 7 {
        "7"@
    } else if n == 8 {
        "8"@
    } else if n == 9 {
        "9"@
    } else if n == 10 {
        "a"@
    } else if n == 11 {
        "b"@
    } else if n == 12 {
        "c"@
    } else if n == 13 {
        "d"@
    } else if n == 14 {
        "e"@
    } else {
        "f"@
    }
}

/// A byte as two hexadecimal digits.
pub open spec fn hex_byte(byte: u8) -> Seq<char> {
    hex_digit(byte as int / 16) + hex_digit(byte as int % 16)
}

/// Bytes as pairs of hexadecimal digits with one space between two pairs.
pub open spec fn hex_text(bytes: Seq<u8>) -> Seq<char>
    decreases bytes.len(),
{
    if bytes.len() == 0 {
        Seq::empty()
    } else if bytes.len() == 1 {
        hex_byte(bytes[0])
    } else {
        hex_text(bytes.drop_last()) + " "@ + hex_byte(bytes.last())
    }
}

/// A number in decimal digits, without leading zeros.
pub open spec fn decimal_text(n: nat) -> Seq<char>
    decreases n,
{
    if n < 10 {
        hex_digit(n as int)
    } else {
        decimal_text(n / 10) + hex_digit((n % 10) as int)
    }
}

/// An address as six pairs of hexadecimal digits with colons between them.
pub open spec fn address_text(addr: Seq<u8>) -> Seq<char> {
    hex_byte(addr[0]) + ":"@ + hex_byte(addr[1]) + ":"@ + hex_byte(addr[2]) + ":"@ + hex_byte(
        addr[3],
    ) + ":"@ + hex_byte(addr[4]) + ":"@ + hex_byte(addr[5])
}

fn digit_str(n: u8) -> (s: &'static str)
    requires
        n < 16,
    ensures
        s@ == hex_digit(n as int),
{
    if n == 0 {
        "0"
    } else if n == 1 {
        "1"
    } else if n == 2 {
        "2"
    } else if n == 3 {
        "3"
    } else if n == 4 {
        "4"
    } else if n == 5 {
        "5"
    } else if n == 6 {
        "6"
    } else if n == 7 {
        "7"
    } else if n == 8 {
        "8"
    } else if n == 9 {
        "9"
    } else if n == 10 {
        "a"
    } else if n == 11 {
        "b"
    } else if n == 12 {
        "c"
    } else if n == 13 {
        "d"
    } else if n == 14 {
        "e"
    } else {
        "f"
    }
}

fn push_hex_byte(text: &mut String, byte: u8)
    ensures
        final(text)@ == old(text)@ + hex_byte(byte),
{
    text.append(digit_str(byte / 16));
    text.append(digit_str(byte % 16));
    assert(text@ =~= old(text)@ + hex_byte(byte));
}

/// Renders bytes for the log.
pub fn hex_from_raw_data(data: &[u8]) -> (text: String)
    ensures
        text@ == hex_text(data@),
{
    let mut text = String::new();
    let mut i: usize = 0;
    while i < data.len()
        invariant
            i <= data@.len(),
            text@ == hex_text(data@.take(i as int)),
        decreases data@.len() - i,
    {
        assert(data@.take(i + 1).drop_last() =~= data@.take(i as int));
        if i > 0 {
            text.append(" ");
        }
        push_hex_byte(&mut text, data[i]);
        i = i + 1;
        assert(text@ =~= hex_text(data@.take(i as int)));
    }
    assert(data@.take(data@.len() as int) =~= data@);
    text
}

/// Renders a number for the log.
pub fn decimal(n: u32) -> (text: String)
    ensures
        text@ == decimal_text(n as nat),
    decreases n,
{
    if n < 10 {
        String::from_str(digit_str(n as u8))
    } else {
        let mut text = decimal(n / 10);
        text.append(digit_str((n % 10) as u8));
        text
    }
}

impl BdAddr {
    /// Renders the address for the log.
    pub fn to_string(&self) -> (text: String)
        ensures
            text@ == address_text(self@),
    {
        let mut text = String::new();
        push_hex_byte(&mut text, self.0[0]);
        text.append(":");
        push_hex_byte(&mut text, self.0[1]);
        text.append(":");
        push_hex_byte(&mut text, self.0[2]);
        text.append(":");
        push_hex_byte(&mut text, self.0[3]);
        text.append(":");
        push_hex_byte(&mut text, self.0[4]);
        text.append(":");
        push_hex_byte(&mut text, self.0[5]);
        assert(text@ =~= address_text(self@));
        text
    }
}

} // verus!
