//! The two atomic value types: a vendor/product identifier pair and the mode
//! a device is in, each with its text form.

use vstd::prelude::*;

verus! {

/// Modes a device can be in. Can be unknown.
#[derive(Copy, Clone, Debug, PartialEq, Eq, Structural)]
pub enum DeviceMode {
    Normal,
    Dfu,
    Unknown,
}

impl DeviceMode {
    /// The word a mode is shown as.
    pub open spec fn text(self) -> Seq<char> {
        match self {
            DeviceMode::Normal => "normal"@,
            DeviceMode::Dfu => "DFU"@,
            DeviceMode::Unknown => "unknown"@,
        }
    }

    /// The mode's word as a string slice.
    pub fn as_str(&self) -> (word: &'static str)
        ensures
            word@ == self.text(),
    {
        match self {
            DeviceMode::Normal => "normal",
            DeviceMode::Dfu => "DFU",
            DeviceMode::Unknown => "unknown",
        }
    }

    /// The mode's word as an owned string.
    pub fn to_string(&self) -> (word: String)
        ensures
            word@ == self.text(),
    {
        String::from_str(self.as_str())
    }
}

/// A USB vendor ID and product ID pair.
#[derive(Copy, Clone, Debug, PartialEq, Eq, Structural)]
pub struct UsbId {
    pub vid: u16,
    pub pid: u16,
}

/// The digit that stands for a value below sixteen, in lower case.
pub open spec fn hex_digit(n: int) -> char
    recommends
        0 <= n < 16,
{
    "0123456789abcdef"@[n]
}

/// A 16-bit value as four hexadecimal digits, the most significant first,
/// with leading zeros.
pub open spec fn hex4(v: u16) -> Seq<char> {
    seq![
        hex_digit(v as int / 0x1000),
        hex_digit(v as int / 0x100 % 0x10),
        hex_digit(v as int / 0x10 % 0x10),
        hex_digit(v as int % 0x10),
    ]
}

/// Appends the four hexadecimal digits of `v` to `out`.
fn append_hex4(out: &mut String, v: u16)
    ensures
        final(out)@ == old(out)@ + hex4(v),
{
    let digits = "0123456789abcdef";
    proof {
        reveal_strlit("0123456789abcdef");
    }
    let a: usize = (v / 0x1000) as usize;
    let b: usize = (v / 0x100 % 0x10) as usize;
    let c: usize = (v / 0x10 % 0x10) as usize;
    let d: usize = (v % 0x10) as usize;
    out.append(digits.substring_ascii(a, a + 1));
    out.append(digits.substring_ascii(b, b + 1));
    out.append(digits.substring_ascii(c, c + 1));
    out.append(digits.substring_ascii(d, d + 1));
    assert(final(out)@ =~= old(out)@ + hex4(v));
}

impl UsbId {
    /// The canonical text form: the vendor ID and the product ID, each as
    /// four lowercase hexadecimal digits, joined by a colon.
    pub open spec fn text(self) -> Seq<char> {
        hex4(self.vid) + seq![':'] + hex4(self.pid)
    }

    /// Renders the identifier in its canonical text form, as in `05a7:1020`.
    pub fn to_string(&self) -> (text: String)
        ensures
            text@ == self.text(),
    {
        let mut text = String::new();
        append_hex4(&mut text, self.vid);
        proof {
            reveal_strlit(":");
        }
        text.append(":");
        append_hex4(&mut text, self.pid);
        assert(text@ =~= self.text());
        text
    }
}

} // verus!
