//! Identifiers of ledger objects and accounts, held as plain bytes.

use vstd::prelude::*;
use vstd::string::StringExecFns;

verus! {

/// The number of bytes in an object identifier or an account address.
pub const ID_LENGTH: usize = 32;

/// The identifier of an object on the ledger.
#[derive(Debug, Clone, Copy, PartialEq, Eq, Hash)]
pub struct ObjectID {
    pub bytes: [u8; 32],
}

/// The address of an account on the ledger.
#[derive(Debug, Clone, Copy, PartialEq, Eq, Hash)]
pub struct IotaAddress {
    pub bytes: [u8; 32],
}

/// A reference to one version of an object: its identifier, its version number and the
/// digest of its content.
#[derive(Debug, Clone, Copy, PartialEq, Eq, Hash)]
pub struct ObjectRef {
    pub object_id: ObjectID,
    pub version: u64,
    pub digest: [u8; 32],
}

/// The lower-case hexadecimal digit of a value below sixteen.
pub open spec fn hex_digit(nibble: int) -> char {
    if nibble == 0 {
        '0'
    } else if nibble == 1 {
        '1'
    } else if nibble == 2 {
        '2'
    } else if nibble == 3 {
        '3'
    } else if nibble == 4 {
        '4'
    } else if nibble == 5 {
        '5'
    } else if nibble == 6 {
        '6'
    } else if nibble == 7 {
        '7'
    } else if nibble == 8 {
        '8'
    } else if nibble == 9 {
        '9'
    } else if nibble == 10 {
        'a'
    } else if nibble == 11 {
        'b'
    } else if nibble == 12 {
        'c'
    } else if nibble == 13 {
        'd'
    } else if nibble == 14 {
        'e'
    } else {
        'f'
    }
}

/// The hexadecimal digits of a byte sequence, two for each byte, high digit first.
pub open spec fn hex_digits(bytes: Seq<u8>) -> Seq<char> {
    Seq::new(2 * bytes.len(), |i: int| hex_digit(if i % 2 == 0 {
        bytes[i / 2] as int / 16
    } else {
        bytes[i / 2] as int % 16
    }))
}

/// The hexadecimal literal of a byte sequence: `0x`, then its digits.
pub open spec fn hex_literal(bytes: Seq<u8>) -> Seq<char> {
    seq!['0', 'x'] + hex_digits(bytes)
}

fn digit_text(nibble: u8) -> (text: &'static str)
    requires
        nibble < 16,
    ensures
        text@ == seq![hex_digit(nibble as int)],
{
    proof {
        reveal_strlit("0");
        reveal_strlit("1");
        reveal_strlit("2");
        reveal_strlit("3");
        reveal_strlit("4");
        reveal_strlit("5");
        reveal_strlit("6");
        reveal_strlit("7");
        reveal_strlit("8");
        reveal_strlit("9");
        reveal_strlit("a");
        reveal_strlit("b");
        reveal_strlit("c");
        reveal_strlit("d");
        reveal_strlit("e");
        reveal_strlit("f");
    }
    let text = match nibble {
        0 => "0",
        1 => "1",
        2 => "2",
        3 => "3",
        4 => "4",
        5 => "5",
        6 => "6",
        7 => "7",
        8 => "8",
        9 => "9",
        10 => "a",
        11 => "b",
        12 => "c",
        13 => "d",
        14 => "e",
        _ => "f",
    };
    assert(text@ =~= seq![hex_digit(nibble as int)]);
    text
}

/// Renders 32 bytes as a hexadecimal literal of full length.
fn to_hex_literal(bytes: &[u8; 32]) -> (text: String)
    ensures
        text@ == hex_literal(bytes@),
{
    proof {
        reveal_strlit("0x");
    }
    let mut text = String::from_str("0x");
    let mut i: usize = 0;
    while i < 32
        invariant
            i <= 32,
            bytes@.len() == 32,
            text@ == seq!['0', 'x'] + hex_digits(bytes@.subrange(0, i as int)),
        decreases 32 - i,
    {
        let byte: u8 = bytes[i];
        let ghost before = text@;
        text.append(digit_text(byte / 16));
        text.append(digit_text(byte % 16));
        assert(text@ =~= seq!['0', 'x'] + hex_digits(bytes@.subrange(0, i + 1))) by {
            let shorter = hex_digits(bytes@.subrange(0, i as int));
            let longer = hex_digits(bytes@.subrange(0, i + 1));
            assert(longer.len() == shorter.len() + 2);
            assert forall|k: int| 0 <= k < shorter.len() implies longer[k] == shorter[k] by {
                assert(bytes@.subrange(0, i + 1)[k / 2] == bytes@.subrange(0, i as int)[k / 2]);
            }
            assert(longer[2 * i] == hex_digit(byte as int / 16));
            assert(longer[2 * i + 1] == hex_digit(byte as int % 16));
            assert(longer =~= shorter + seq![hex_digit(byte as int / 16)] + seq![
                hex_digit(byte as int % 16),
            ]);
        }
        i = i + 1;
    }
    assert(bytes@.subrange(0, 32) =~= bytes@);
    text
}

/// Copies 32 bytes into a vector.
fn to_byte_vec(bytes: &[u8; 32]) -> (copy: Vec<u8>)
    ensures
        copy@ == bytes@,
{
    let mut copy: Vec<u8> = Vec::new();
    let mut i: usize = 0;
    while i < 32
        invariant
            i <= 32,
            bytes@.len() == 32,
            copy@ == bytes@.subrange(0, i as int),
        decreases 32 - i,
    {
        copy.push(bytes[i]);
        assert(copy@ =~= bytes@.subrange(0, i + 1));
        i = i + 1;
    }
    assert(bytes@.subrange(0, 32) =~= bytes@);
    copy
}

impl View for ObjectID {
    type V = Seq<u8>;

    open spec fn view(&self) -> Seq<u8> {
        self.bytes@
    }
}

impl View for IotaAddress {
    type V = Seq<u8>;

    open spec fn view(&self) -> Seq<u8> {
        self.bytes@
    }
}

impl ObjectID {
    /// The identifier made of the given bytes.
    pub fn new(bytes: [u8; 32]) -> (id: Self)
        ensures
            id.bytes == bytes,
    {
        ObjectID { bytes }
    }

    /// The identifier's bytes, which are also its binary encoding.
    pub fn to_vec(&self) -> (bytes: Vec<u8>)
        ensures
            bytes@ == self@,
            bytes@.len() == ID_LENGTH,
    {
        to_byte_vec(&self.bytes)
    }

    /// The identifier as text: `0x` followed by its 64 hexadecimal digits in lower case.
    pub fn to_hex_literal(&self) -> (text: String)
        ensures
            text@ == hex_literal(self@),
    {
        to_hex_literal(&self.bytes)
    }
}

impl IotaAddress {
    /// The address made of the given bytes.
    pub fn new(bytes: [u8; 32]) -> (address: Self)
        ensures
            address.bytes == bytes,
    {
        IotaAddress { bytes }
    }

    /// The all-zero address, from which simulated calls are sent.
    pub fn zero() -> (address: Self)
        ensures
            address@ == Seq::new(ID_LENGTH as nat, |i: int| 0u8),
    {
        let address = IotaAddress { bytes: [0u8; 32] };
        assert(address@ =~= Seq::new(ID_LENGTH as nat, |i: int| 0u8));
        address
    }

    /// The address's bytes, which are also its binary encoding.
    pub fn to_vec(&self) -> (bytes: Vec<u8>)
        ensures
            bytes@ == self@,
            bytes@.len() == ID_LENGTH,
    {
        to_byte_vec(&self.bytes)
    }

    /// The address as text: `0x` followed by its 64 hexadecimal digits in lower case.
    pub fn to_hex_literal(&self) -> (text: String)
        ensures
            text@ == hex_literal(self@),
    {
        to_hex_literal(&self.bytes)
    }
}

} // verus!
