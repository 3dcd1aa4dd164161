//! Twenty-byte account addresses and their hexadecimal text form.
use vstd::prelude::*;

verus! {

/// Whether `c` is a hexadecimal digit of either case.
pub open spec fn is_hex_digit(c: char) -> bool {
    ||| ('0' <= c && c <= '9')
    ||| ('a' <= c && c <= 'f')
    ||| ('A' <= c && c <= 'F')
}

/// The value of the hexadecimal digit `c`.
pub open spec fn hex_digit_value(c: char) -> int {
    if '0' <= c && c <= '9' {
        (c as int) - ('0' as int)
    } else if 'a' <= c && c <= 'f' {
        (c as int) - ('a' as int) + 10
    } else {
        (c as int) - ('A' as int) + 10
    }
}

/// The text with one leading `0x` removed, where it has one.
pub open spec fn strip_hex_prefix(s: Seq<char>) -> Seq<char> {
    if s.len() >= 2 && s[0] == '0' && s[1] == 'x' {
        s.subrange(2, s.len() as int)
    } else {
        s
    }
}

/// Whether `s` is an even number of hexadecimal digits.
pub open spec fn is_hex(s: Seq<char>) -> bool {
    &&& s.len() % 2 == 0
    &&& forall|i: int| 0 <= i < s.len() ==> is_hex_digit(#[trigger] s[i])
}

/// The bytes that the digit pairs of `s` stand for, most significant digit first.
pub open spec fn hex_decoded(s: Seq<char>) -> Seq<u8> {
    Seq::new(
        (s.len() / 2) as nat,
        |i: int| (hex_digit_value(s[2 * i]) * 16 + hex_digit_value(s[2 * i + 1])) as u8,
    )
}

/// The bytes that the text `s` stands for, with or without its `0x`, or `None` where it is
/// not hexadecimal.
pub open spec fn hex_text_bytes(s: Seq<char>) -> Option<Seq<u8>> {
    if is_hex(strip_hex_prefix(s)) {
        Some(hex_decoded(strip_hex_prefix(s)))
    } else {
        None
    }
}

/// The address that the text `s` stands for: twenty bytes of hexadecimal text.
pub open spec fn address_of_text(s: Seq<char>) -> Option<Seq<u8>> {
    match hex_text_bytes(s) {
        Some(b) => if b.len() == 20 { Some(b) } else { None },
        None => None,
    }
}

/// Relies on tycho_common's `Bytes::from_str`: it removes one leading `0x` and decodes the
/// rest with `hex::decode`, which accepts an even number of digits of either case.
#[verifier::external_body]
fn decode_hex_text(s: &str) -> (r: Option<Vec<u8>>)
    ensures
        match hex_text_bytes(s@) {
            Some(b) => r is Some && r->0@ == b,
            None => r is None,
        },
{
    <tycho_common::Bytes as std::str::FromStr>::from_str(s).ok().map(|b| b.to_vec())
}

/// An account address of exactly twenty bytes.
#[derive(Debug)]
pub struct Address {
    bytes: Vec<u8>,
}

impl View for Address {
    type V = Seq<u8>;

    closed spec fn view(&self) -> Seq<u8> {
        self.bytes@
    }
}

impl Address {
    #[verifier::type_invariant]
    spec fn well_formed(self) -> bool {
        self.bytes@.len() == 20
    }

    /// The address made of `bytes`, or `None` where they are not twenty.
    pub fn from_bytes(bytes: Vec<u8>) -> (r: Option<Address>)
        ensures
            bytes@.len() == 20 <==> r is Some,
            r is Some ==> r->0@ == bytes@,
    {
        if bytes.len() == 20 {
            Some(Address { bytes })
        } else {
            None
        }
    }

    /// The address written as hexadecimal text, with or without a leading `0x`.
    pub fn from_hex(s: &str) -> (r: Option<Address>)
        ensures
            match address_of_text(s@) {
                Some(b) => r is Some && r->0@ == b,
                None => r is None,
            },
    {
        match decode_hex_text(s) {
            Some(bytes) => Address::from_bytes(bytes),
            None => None,
        }
    }

    /// The twenty bytes of the address.
    pub fn as_bytes(&self) -> (r: &[u8])
        ensures
            r@ == self@,
            r@.len() == 20,
    {
        proof {
            use_type_invariant(self);
        }
        self.bytes.as_slice()
    }

    /// Whether the two addresses hold the same bytes.
    pub fn same_as(&self, other: &Address) -> (r: bool)
        ensures
            r == (self@ == other@),
    {
        proof {
            use_type_invariant(self);
            use_type_invariant(other);
        }
        let mut i: usize = 0;
        while i < 20
            invariant
                i <= 20,
                self@.len() == 20,
                other@.len() == 20,
                forall|j: int| 0 <= j < i ==> self@[j] == other@[j],
            decreases 20 - i,
        {
            if self.bytes[i] != other.bytes[i] {
                return false;
            }
            i = i + 1;
        }
        assert(self@ =~= other@);
        true
    }
}

impl Clone for Address {
    fn clone(&self) -> (r: Address)
        ensures
            r@ == self@,
    {
        proof {
            use_type_invariant(self);
        }
        let mut bytes: Vec<u8> = Vec::new();
        let mut i: usize = 0;
        while i < 20
            invariant
                i <= 20,
                self@.len() == 20,
                bytes@ == self@.subrange(0, i as int),
            decreases 20 - i,
        {
            bytes.push(self.bytes[i]);
            i = i + 1;
        }
        assert(bytes@ =~= self@);
        Address { bytes }
    }
}

} // verus!
