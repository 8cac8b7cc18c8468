use vstd::prelude::*;
use vstd::utf8::valid_utf8;

verus! {

/// The byte at `i`, or zero where `data` has ended: what a read into a fresh,
/// zeroed buffer holds at that place.
pub open spec fn byte_at(data: Seq<u8>, i: int) -> int {
    if 0 <= i < data.len() {
        data[i] as int
    } else {
        0
    }
}

/// How many bytes a read of `width` bytes at `pos` gets: all of them, or the
/// rest of the data.
pub open spec fn read_len(data: Seq<u8>, pos: int, width: int) -> int {
    if data.len() - pos < width {
        data.len() - pos
    } else {
        width
    }
}

/// The little-endian 16-bit value at `pos`, missing bytes counting as zero.
pub open spec fn le_u16_at(data: Seq<u8>, pos: int) -> int {
    byte_at(data, pos) + 256 * byte_at(data, pos + 1)
}

/// The little-endian 32-bit value at `pos`, missing bytes counting as zero.
pub open spec fn le_u32_at(data: Seq<u8>, pos: int) -> int {
    byte_at(data, pos) + 256 * byte_at(data, pos + 1) + 65536 * byte_at(data, pos + 2) + 16777216
        * byte_at(data, pos + 3)
}

/// The byte `offset` places after `pos`, or zero past the end.
pub fn byte_or_zero(data: &[u8], pos: usize, offset: usize) -> (b: u8)
    requires
        pos <= data@.len(),
    ensures
        b as int == byte_at(data@, pos + offset),
{
    if offset < data.len() - pos {
        data[pos + offset]
    } else {
        0
    }
}

/// Reads a little-endian `u16` at `pos` as a read of two bytes into a zeroed
/// buffer does; gives the value and the position after what was read.
pub fn read_u16_le(data: &[u8], pos: usize) -> (r: (u16, usize))
    requires
        pos <= data@.len(),
    ensures
        r.0 as int == le_u16_at(data@, pos as int),
        r.1 == pos + read_len(data@, pos as int, 2),
{
    let b0: u16 = byte_or_zero(data, pos, 0) as u16;
    let b1: u16 = byte_or_zero(data, pos, 1) as u16;
    let rest: usize = data.len() - pos;
    let n: usize = if rest < 2 {
        rest
    } else {
        2
    };
    (b0 + b1 * 256, pos + n)
}

/// Reads a little-endian `u32` at `pos` as a read of four bytes into a zeroed
/// buffer does; gives the value and the position after what was read.
pub fn read_u32_le(data: &[u8], pos: usize) -> (r: (u32, usize))
    requires
        pos <= data@.len(),
    ensures
        r.0 as int == le_u32_at(data@, pos as int),
        r.1 == pos + read_len(data@, pos as int, 4),
{
    let b0: u32 = byte_or_zero(data, pos, 0) as u32;
    let b1: u32 = byte_or_zero(data, pos, 1) as u32;
    let b2: u32 = byte_or_zero(data, pos, 2) as u32;
    let b3: u32 = byte_or_zero(data, pos, 3) as u32;
    let rest: usize = data.len() - pos;
    let n: usize = if rest < 4 {
        rest
    } else {
        4
    };
    (b0 + b1 * 256 + b2 * 65536 + b3 * 16777216, pos + n)
}

/// A month of the data set: year and month.
#[derive(Clone, Copy, PartialEq, Eq, Debug)]
pub struct Timepoint(pub u16, pub u16);

/// The time point that a 16-bit code stands for: the year in the upper
/// twelve bits, the month in the lower four.
pub open spec fn decode_timepoint_spec(encoded: u16) -> Timepoint {
    Timepoint((encoded / 16) as u16, (encoded % 16) as u16)
}

pub fn decode_timepoint(encoded: u16) -> (t: Timepoint)
    ensures
        t == decode_timepoint_spec(encoded),
{
    let year: u16 = (encoded & 0xFFF0) >> 4;
    let month: u16 = encoded & 0x000F;
    assert((encoded & 0xFFF0) >> 4 == encoded / 16) by (bit_vector);
    assert(encoded & 0x000F == encoded % 16) by (bit_vector);
    Timepoint(year, month)
}

/// The decimal digit `d` as a character.
pub open spec fn digit_char(d: int) -> char {
    if d == 0 {
        '0'
    } else if d == 1 {
        '1'
    } else if d == 2 {
        '2'
    } else if d == 3 {
        '3'
    } else if d == 4 {
        '4'
    } else if d == 5 {
        '5'
    } else if d == 6 {
        '6'
    } else if d == 7 {
        '7'
    } else if d == 8 {
        '8'
    } else {
        '9'
    }
}

/// The decimal notation of `n`, without leading zeros.
pub open spec fn decimal(n: nat) -> Seq<char>
    decreases n,
{
    if n < 10 {
        seq![digit_char(n as int)]
    } else {
        decimal(n / 10).push(digit_char((n % 10) as int))
    }
}

/// The decimal notation of `n`, padded with zeros to at least two digits.
pub open spec fn decimal_two(n: nat) -> Seq<char> {
    if n < 10 {
        seq!['0'] + decimal(n)
    } else {
        decimal(n)
    }
}

fn digit_str(d: u16) -> (s: &'static str)
    requires
        d < 10,
    ensures
        s@ == seq![digit_char(d as int)],
{
    match d {
        0 => {
            proof {
                reveal_strlit("0");
            }
            "0"
        },
        1 => {
            proof {
                reveal_strlit("1");
            }
            "1"
        },
        2 => {
            proof {
                reveal_strlit("2");
            }
            "2"
        },
        3 => {
            proof {
                reveal_strlit("3");
            }
            "3"
        },
        4 => {
            proof {
                reveal_strlit("4");
            }
            "4"
        },
        5 => {
            proof {
                reveal_strlit("5");
            }
            "5"
        },
        6 => {
            proof {
                reveal_strlit("6");
            }
            "6"
        },
        7 => {
            proof {
                reveal_strlit("7");
            }
            "7"
        },
        8 => {
            proof {
                reveal_strlit("8");
            }
            "8"
        },
        _ => {
            proof {
                reveal_strlit("9");
            }
            "9"
        },
    }
}

/// Appends the decimal notation of `n` to `s`.
pub fn push_decimal(s: &mut String, n: u16)
    ensures
        final(s)@ == old(s)@ + decimal(n as nat),
    decreases n,
{
    if n < 10 {
        s.append(digit_str(n));
    } else {
        push_decimal(s, n / 10);
        s.append(digit_str(n % 10));
        assert(old(s)@ + decimal(n as nat) =~= old(s)@ + decimal((n / 10) as nat) + seq![
            digit_char((n % 10) as int),
        ]);
    }
}

/// The name by which the weather file of a time point is known: the year,
/// a dash, and the month in two digits.
pub open spec fn weather_suffix_spec(t: Timepoint) -> Seq<char> {
    decimal(t.0 as nat) + "-"@ + decimal_two(t.1 as nat)
}

pub fn weather_suffix(t: Timepoint) -> (s: String)
    ensures
        s@ == weather_suffix_spec(t),
{
    let mut s = String::new();
    push_decimal(&mut s, t.0);
    s.append("-");
    if t.1 < 10 {
        proof {
            reveal_strlit("0");
        }
        s.append("0");
    }
    push_decimal(&mut s, t.1);
    assert(s@ =~= weather_suffix_spec(t));
    s
}

/// Whether `bytes` is well-formed UTF-8.
#[verifier::external_body]
pub(crate) fn utf8_is_valid(bytes: &[u8]) -> (ok: bool)
    ensures
        ok == valid_utf8(bytes@),
{
    std::str::from_utf8(bytes).is_ok()
}

/// Whether `s` ends with `suffix`.
pub open spec fn ends_with(s: Seq<u8>, suffix: Seq<u8>) -> bool {
    suffix.len() <= s.len() && s.subrange(s.len() - suffix.len(), s.len() as int) == suffix
}

pub fn bytes_end_with(s: &[u8], suffix: &[u8]) -> (r: bool)
    ensures
        r == ends_with(s@, suffix@),
{
    if suffix.len() > s.len() {
        return false;
    }
    let start: usize = s.len() - suffix.len();
    let mut i: usize = 0;
    while i < suffix.len()
        invariant
            start + suffix@.len() == s@.len(),
            s@.len() <= usize::MAX,
            i <= suffix@.len(),
            forall|j: int| 0 <= j < i ==> s@[start + j] == suffix@[j],
        decreases suffix@.len() - i,
    {
        if s[start + i] != suffix[i] {
            assert(s@.subrange(start as int, s@.len() as int)[i as int] != suffix@[i as int]);
            return false;
        }
        i = i + 1;
    }
    assert(s@.subrange(start as int, s@.len() as int) =~= suffix@);
    true
}

/// The bytes of ".bin".
pub open spec fn bin_extension() -> Seq<u8> {
    seq![46u8, 98u8, 105u8, 110u8]
}

fn bin_extension_bytes() -> (v: Vec<u8>)
    ensures
        v@ == bin_extension(),
{
    let mut v: Vec<u8> = Vec::new();
    v.push(46);
    v.push(98);
    v.push(105);
    v.push(110);
    assert(v@ =~= bin_extension());
    v
}

/// Whether a file of that name has the extension "bin": a name that ends in
/// ".bin" and holds more than that (".bin" alone is a hidden file without
/// extension).
pub open spec fn has_bin_extension_spec(file_name: Seq<u8>) -> bool {
    file_name.len() > 4 && ends_with(file_name, bin_extension())
}

pub fn has_bin_extension(file_name: &[u8]) -> (r: bool)
    ensures
        r == has_bin_extension_spec(file_name@),
{
    let ext = bin_extension_bytes();
    file_name.len() > 4 && bytes_end_with(file_name, ext.as_slice())
}

/// The byte with ASCII lower-case letters made upper-case.
pub open spec fn ascii_upper(b: u8) -> u8 {
    if 97 <= b <= 122 {
        (b - 32) as u8
    } else {
        b
    }
}

/// The end that the name of a country file must have for the code `code`
/// read from it: the code as text (nothing where it is not UTF-8), in upper
/// case, then ".bin".
pub open spec fn country_suffix(code: Seq<u8>) -> Seq<u8> {
    (if valid_utf8(code) {
        code.map_values(|b: u8| ascii_upper(b))
    } else {
        Seq::empty()
    }) + bin_extension()
}

/// A file name as text: its bytes where they are UTF-8, else nothing.
pub open spec fn name_text(file_name: Seq<u8>) -> Seq<u8> {
    if valid_utf8(file_name) {
        file_name
    } else {
        Seq::empty()
    }
}

/// Whether the name of a country file agrees with the code inside it.
pub open spec fn country_code_matches(file_name: Seq<u8>, code: Seq<u8>) -> bool {
    ends_with(name_text(file_name), country_suffix(code))
}

pub fn country_code_check(file_name: &[u8], code: &[u8]) -> (r: bool)
    ensures
        r == country_code_matches(file_name@, code@),
{
    let mut suffix: Vec<u8> = Vec::new();
    if utf8_is_valid(code) {
        let mut i: usize = 0;
        while i < code.len()
            invariant
                i <= code@.len(),
                suffix@ =~= code@.subrange(0, i as int).map_values(|b: u8| ascii_upper(b)),
            decreases code@.len() - i,
        {
            let b: u8 = code[i];
            let up: u8 = if 97 <= b && b <= 122 {
                b - 32
            } else {
                b
            };
            suffix.push(up);
            i = i + 1;
        }
        assert(code@.subrange(0, code@.len() as int) =~= code@);
    }
    let ext = bin_extension_bytes();
    let mut j: usize = 0;
    let ghost base = suffix@;
    while j < ext.len()
        invariant
            ext@ == bin_extension(),
            j <= 4,
            suffix@ =~= base + ext@.subrange(0, j as int),
        decreases 4 - j,
    {
        suffix.push(ext[j]);
        j = j + 1;
    }
    assert(suffix@ =~= country_suffix(code@));
    if utf8_is_valid(file_name) {
        bytes_end_with(file_name, suffix.as_slice())
    } else {
        let empty: Vec<u8> = Vec::new();
        assert(empty@ =~= name_text(file_name@));
        bytes_end_with(empty.as_slice(), suffix.as_slice())
    }
}

} // verus!
