//! Machine IDs: the 64-bit identity of a node, written as hexadecimal text.

use std::str::FromStr;
use vstd::prelude::*;
use vstd::string::StringSliceAdditionalSpecFns;

verus! {

/// The value of one hexadecimal digit, in either case; none for any other byte.
pub open spec fn hex_digit(byte: u8) -> Option<u64> {
    if 0x30 <= byte <= 0x39 {
        Some((byte - 0x30) as u64)
    } else if 0x61 <= byte <= 0x66 {
        Some((byte - 0x61 + 10) as u64)
    } else if 0x41 <= byte <= 0x46 {
        Some((byte - 0x41 + 10) as u64)
    } else {
        None
    }
}

/// Whether every byte is a hexadecimal digit.
pub open spec fn all_hex(digits: Seq<u8>) -> bool {
    forall|i: int| 0 <= i < digits.len() ==> hex_digit(#[trigger] digits[i]) is Some
}

/// The number that the digits spell, the first digit weighing most. A byte
/// that is no digit counts as zero.
pub open spec fn hex_value(digits: Seq<u8>) -> nat
    decreases digits.len(),
{
    if digits.len() == 0 {
        0
    } else {
        let last = match hex_digit(digits.last()) {
            Some(d) => d as nat,
            None => 0,
        };
        hex_value(digits.drop_last()) * 16 + last
    }
}

/// The digits of a number's text: the text without one leading `+`.
pub open spec fn hex_digits(text: Seq<u8>) -> Seq<u8> {
    if text.len() > 0 && text[0] == 0x2b {
        text.skip(1)
    } else {
        text
    }
}

/// The number that a hexadecimal text stands for: at least one digit, after
/// at most one `+`, spelling a number that fits in 64 bits.
pub open spec fn parse_hex(text: Seq<u8>) -> Option<u64> {
    let digits = hex_digits(text);
    if digits.len() == 0 || !all_hex(digits) || hex_value(digits) > u64::MAX {
        None
    } else {
        Some(hex_value(digits) as u64)
    }
}

/// The machine ID that a text stands for: a hexadecimal number other than zero.
pub open spec fn parse_machine_id(text: Seq<u8>) -> Option<u64> {
    match parse_hex(text) {
        Some(value) => if value == 0 {
            None
        } else {
            Some(value)
        },
        None => None,
    }
}

/// A longer run of digits spells no smaller a number than its beginning.
proof fn lemma_hex_value_prefix(digits: Seq<u8>, k: int)
    requires
        0 <= k <= digits.len(),
    ensures
        hex_value(digits.subrange(0, k)) <= hex_value(digits),
    decreases digits.len() - k,
{
    if k == digits.len() {
        assert(digits.subrange(0, k) =~= digits);
    } else {
        lemma_hex_value_prefix(digits.drop_last(), k);
        assert(digits.drop_last().subrange(0, k) =~= digits.subrange(0, k));
    }
}

fn digit_of(byte: u8) -> (digit: Option<u64>)
    ensures
        digit == hex_digit(byte),
{
    if 0x30 <= byte && byte <= 0x39 {
        Some((byte - 0x30) as u64)
    } else if 0x61 <= byte && byte <= 0x66 {
        Some((byte - 0x61 + 10) as u64)
    } else if 0x41 <= byte && byte <= 0x46 {
        Some((byte - 0x41 + 10) as u64)
    } else {
        None
    }
}

/// Read a hexadecimal number.
pub fn read_hex(text: &[u8]) -> (value: Option<u64>)
    ensures
        value == parse_hex(text@),
{
    let n: usize = text.len();
    let start: usize = if n > 0 && text[0] == 0x2b {
        1
    } else {
        0
    };
    let ghost digits = hex_digits(text@);
    assert(digits =~= text@.subrange(start as int, n as int));
    if start == n {
        return None;
    }
    let mut value: u64 = 0;
    let mut i: usize = start;
    while i < n
        invariant
            start <= i <= n,
            n == text@.len(),
            digits == text@.subrange(start as int, n as int),
            digits == hex_digits(text@),
            all_hex(digits.subrange(0, i - start)),
            value == hex_value(digits.subrange(0, i - start)),
        decreases n - i,
    {
        let ghost before = digits.subrange(0, i - start);
        let ghost after = digits.subrange(0, i - start + 1);
        assert(after.drop_last() =~= before);
        assert(after.last() == text@[i as int]);
        match digit_of(text[i]) {
            None => {
                assert(!all_hex(digits)) by {
                    assert(hex_digit(digits[i - start]) is None);
                }
                return None;
            },
            Some(d) => {
                if value > 0x0fff_ffff_ffff_ffff {
                    proof {
                        assert(hex_value(after) == value * 16 + d);
                        assert(hex_value(after) > u64::MAX);
                        lemma_hex_value_prefix(digits, i - start + 1);
                    }
                    return None;
                }
                value = value * 16 + d;
                assert(all_hex(after)) by {
                    assert forall|j: int| 0 <= j < after.len() implies hex_digit(
                        #[trigger] after[j],
                    ) is Some by {
                        if j < before.len() {
                            assert(after[j] == before[j]);
                        }
                    }
                }
            },
        }
        i += 1;
    }
    assert(digits.subrange(0, n - start) =~= digits);
    Some(value)
}

/// The number of digits in which a machine ID is written: 14, or as many
/// more as the number needs.
pub open spec fn hex_width(value: u64) -> nat {
    if value < 0x0100_0000_0000_0000 {
        14
    } else if value < 0x1000_0000_0000_0000 {
        15
    } else {
        16
    }
}

/// Whether `text` is `value` written in lower-case hexadecimal, with zeros in
/// front up to 14 digits.
pub open spec fn is_hex_text(text: Seq<char>, value: u64) -> bool {
    &&& text.len() == hex_width(value)
    &&& forall|i: int|
        0 <= i < text.len() ==> ('0' <= #[trigger] text[i] <= '9' || 'a' <= text[i] <= 'f')
    &&& hex_value(text.map_values(|c: char| c as u8)) == value
}

/// `format!` with `{:014x}`: the number in lower-case hexadecimal, with zeros
/// in front up to 14 digits.
#[verifier::external_body]
fn format_hex(value: u64) -> (text: String)
    ensures
        is_hex_text(text@, value),
{
    format!("{:014x}", value)
}

/// A text that is no machine ID.
#[derive(PartialEq, Eq, Structural, Copy, Clone, Debug)]
pub struct InvalidMachineId;

/// A machine ID, encoded as a non-zero `u64`. Its view is the number.
#[derive(Hash, PartialEq, Eq, Structural, PartialOrd, Ord, Copy, Clone, Debug)]
pub struct MachineId(u64);

impl View for MachineId {
    type V = u64;

    closed spec fn view(&self) -> u64 {
        self.0
    }
}

impl MachineId {
    #[verifier::type_invariant]
    closed spec fn nonzero(self) -> bool {
        self.0 != 0
    }

    /// The machine ID that `id` spells in hexadecimal; `id` must spell one.
    pub fn new(id: &str) -> (machine: MachineId)
        requires
            parse_machine_id(id.spec_bytes()) is Some,
        ensures
            Some(machine@) == parse_machine_id(id.spec_bytes()),
    {
        match MachineId::parse(id) {
            Ok(machine) => machine,
            Err(_) => {
                assert(false);
                MachineId(1)
            },
        }
    }

    /// Read a machine ID from hexadecimal text.
    pub fn parse(text: &str) -> (machine: Result<MachineId, InvalidMachineId>)
        ensures
            match machine {
                Ok(id) => parse_machine_id(text.spec_bytes()) == Some(id@),
                Err(_) => parse_machine_id(text.spec_bytes()) is None,
            },
    {
        match read_hex(text.as_bytes()) {
            Some(value) => match MachineId::from_raw(value) {
                Some(id) => {
                    proof {
                        MachineId::lemma_of(value, id);
                    }
                    Ok(id)
                },
                None => Err(InvalidMachineId),
            },
            None => Err(InvalidMachineId),
        }
    }

    /// The machine ID whose number is `raw`.
    pub closed spec fn of(raw: u64) -> MachineId {
        MachineId(raw)
    }

    /// [`MachineId::of`] and the view undo each other.
    pub proof fn lemma_of(raw: u64, id: MachineId)
        ensures
            MachineId::of(raw)@ == raw,
            MachineId::of(id@) == id,
    {
    }

    /// The machine ID with the number `raw`: none for zero.
    pub fn from_raw(raw: u64) -> (machine: Option<MachineId>)
        ensures
            machine == (if raw == 0 {
                None
            } else {
                Some(MachineId::of(raw))
            }),
    {
        if raw == 0 {
            None
        } else {
            Some(MachineId(raw))
        }
    }

    /// The number of the machine ID, which is never zero.
    pub fn into_raw(self) -> (raw: u64)
        ensures
            raw == self@,
            raw != 0,
    {
        proof {
            use_type_invariant(self);
        }
        self.0
    }

    /// The machine ID in lower-case hexadecimal, with zeros in front up to 14
    /// digits.
    pub fn to_string(&self) -> (text: String)
        ensures
            is_hex_text(text@, self@),
    {
        format_hex(self.0)
    }

    /// Two machine IDs are equal exactly when their numbers are.
    pub proof fn lemma_equal_by_value(self, other: MachineId)
        ensures
            self@ == other@ <==> self == other,
    {
    }
}

impl FromStr for MachineId {
    type Err = InvalidMachineId;

    /// Read a machine ID from hexadecimal text, as [`MachineId::parse`] does.
    fn from_str(s: &str) -> (machine: Result<MachineId, InvalidMachineId>)
        ensures
            match machine {
                Ok(id) => parse_machine_id(s.spec_bytes()) == Some(id@),
                Err(_) => parse_machine_id(s.spec_bytes()) is None,
            },
    {
        MachineId::parse(s)
    }
}

} // verus!
