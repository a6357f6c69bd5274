//! The value type, its integer form and its constructors.

use vstd::prelude::*;
use vstd::std_specs::cmp::PartialEqSpec;
use vstd::string::StringSliceAdditionalSpecFns;

verus! {

/// A _four-character-code_ value: exactly four octets, any of which may hold
/// any value.
#[derive(Clone, Copy, Eq, Hash)]
pub struct FourCC(pub [u8; 4]);

/// The byte-sequence constructor was given fewer than four octets.
#[derive(Clone, Copy, Debug, PartialEq, Eq, Structural)]
pub struct InsufficientLength {
    /// The number of octets that were given.
    pub len: usize,
}

/// The big-endian reading of four octets: `b0` is the most significant.
pub open spec fn be_u32(b0: u8, b1: u8, b2: u8, b3: u8) -> int {
    b0 as int * 0x100_0000 + b1 as int * 0x1_0000 + b2 as int * 0x100 + b3 as int
}

impl PartialEq for FourCC {
    /// Octet-wise equality.
    fn eq(&self, other: &Self) -> (r: bool) {
        self.0[0] == other.0[0] && self.0[1] == other.0[1] && self.0[2] == other.0[2] && self.0[3]
            == other.0[3]
    }
}

impl vstd::std_specs::cmp::PartialEqSpecImpl for FourCC {
    open spec fn obeys_eq_spec() -> bool {
        true
    }

    open spec fn eq_spec(&self, other: &Self) -> bool {
        self.0[0] == other.0[0] && self.0[1] == other.0[1] && self.0[2] == other.0[2] && self.0[3]
            == other.0[3]
    }
}

impl<'a> From<&'a [u8; 4]> for FourCC {
    /// An exact copy of the four octets.
    fn from(buf: &'a [u8; 4]) -> (c: FourCC) {
        let c = FourCC([buf[0], buf[1], buf[2], buf[3]]);
        assert(c.0 =~= *buf);
        c
    }
}

impl<'a> vstd::std_specs::convert::FromSpecImpl<&'a [u8; 4]> for FourCC {
    open spec fn obeys_from_spec() -> bool {
        true
    }

    open spec fn from_spec(buf: &'a [u8; 4]) -> FourCC {
        FourCC(*buf)
    }
}

impl From<u32> for FourCC {
    /// The code whose big-endian integer form is `val`.
    fn from(val: u32) -> (c: FourCC) {
        let b0: u8 = (val >> 24 & 0xff) as u8;
        let b1: u8 = (val >> 16 & 0xff) as u8;
        let b2: u8 = (val >> 8 & 0xff) as u8;
        let b3: u8 = (val & 0xff) as u8;
        assert(b0 == (val / 0x100_0000) as u8 && b1 == (val / 0x1_0000 % 0x100) as u8 && b2 == (val
            / 0x100 % 0x100) as u8 && b3 == (val % 0x100) as u8) by (bit_vector)
            requires
                b0 == (val >> 24 & 0xff) as u8,
                b1 == (val >> 16 & 0xff) as u8,
                b2 == (val >> 8 & 0xff) as u8,
                b3 == (val & 0xff) as u8,
        ;
        let c = FourCC([b0, b1, b2, b3]);
        assert(c.0 =~= FourCC::of_u32(val).0);
        c
    }
}

impl vstd::std_specs::convert::FromSpecImpl<u32> for FourCC {
    open spec fn obeys_from_spec() -> bool {
        true
    }

    open spec fn from_spec(val: u32) -> FourCC {
        FourCC::of_u32(val)
    }
}

impl From<FourCC> for u32 {
    /// The big-endian integer form of `val`.
    fn from(val: FourCC) -> (n: u32) {
        val.from_u32()
    }
}

impl vstd::std_specs::convert::FromSpecImpl<FourCC> for u32 {
    open spec fn obeys_from_spec() -> bool {
        true
    }

    open spec fn from_spec(val: FourCC) -> u32 {
        val.to_u32_spec()
    }
}

impl core::str::FromStr for FourCC {
    type Err = u32;

    /// The text constructor, for `str::parse`: the code whose octets are
    /// those of `s`, which is accepted exactly when it is four octets long;
    /// otherwise the error is the length that was found, in octets.
    fn from_str(s: &str) -> (r: Result<FourCC, u32>)
        ensures
            s.spec_bytes().len() == 4 ==> r == Ok::<FourCC, u32>(FourCC::of_seq(s.spec_bytes())),
            s.spec_bytes().len() != 4 ==> r == Err::<FourCC, u32>(
                FourCC::reported_len(s.spec_bytes().len()),
            ),
    {
        FourCC::from_str(s)
    }
}

impl FourCC {
    /// The four octets, in index order.
    pub open spec fn octets(self) -> Seq<u8> {
        self.0@
    }

    /// The integer form: the octets read as a big-endian 32-bit number.
    pub open spec fn to_u32_spec(self) -> u32 {
        be_u32(self.0[0], self.0[1], self.0[2], self.0[3]) as u32
    }

    /// The code whose integer form is `n`: octet 0 is the most significant
    /// byte of `n`, octet 3 the least significant.
    pub open spec fn of_u32(n: u32) -> FourCC {
        FourCC(
            [
                (n / 0x100_0000) as u8,
                (n / 0x1_0000 % 0x100) as u8,
                (n / 0x100 % 0x100) as u8,
                (n % 0x100) as u8,
            ],
        )
    }

    /// The code made of the first four octets of `s`.
    pub open spec fn of_seq(s: Seq<u8>) -> FourCC
        recommends
            s.len() >= 4,
    {
        FourCC([s[0], s[1], s[2], s[3]])
    }

    /// Turning a 32-bit number into a code and the code back into a number
    /// gives the number.
    pub proof fn lemma_u32_round_trip(n: u32)
        ensures
            FourCC::of_u32(n).to_u32_spec() == n,
    {
        let b0: u32 = n / 0x100_0000;
        let b1: u32 = n / 0x1_0000 % 0x100;
        let b2: u32 = n / 0x100 % 0x100;
        let b3: u32 = n % 0x100;
        assert(b0 < 0x100 && b1 < 0x100 && b2 < 0x100 && b3 < 0x100 && n == b0 * 0x100_0000 + b1
            * 0x1_0000 + b2 * 0x100 + b3) by (bit_vector)
            requires
                b0 == n / 0x100_0000,
                b1 == n / 0x1_0000 % 0x100,
                b2 == n / 0x100 % 0x100,
                b3 == n % 0x100,
        ;
    }

    /// Turning a code into its integer form and that back into a code gives
    /// the code.
    pub proof fn lemma_code_round_trip(self)
        ensures
            FourCC::of_u32(self.to_u32_spec()) == self,
    {
        let b0: u32 = self.0[0] as u32;
        let b1: u32 = self.0[1] as u32;
        let b2: u32 = self.0[2] as u32;
        let b3: u32 = self.0[3] as u32;
        let n: u32 = self.to_u32_spec();
        assert(n == b0 * 0x100_0000 + b1 * 0x1_0000 + b2 * 0x100 + b3);
        assert(n / 0x100_0000 == b0 && n / 0x1_0000 % 0x100 == b1 && n / 0x100 % 0x100 == b2 && n
            % 0x100 == b3) by (bit_vector)
            requires
                b0 < 0x100 && b1 < 0x100 && b2 < 0x100 && b3 < 0x100,
                n == b0 * 0x100_0000 + b1 * 0x1_0000 + b2 * 0x100 + b3,
        ;
        assert(FourCC::of_u32(n).0 =~= self.0);
    }

    /// A code made from four octets holds those octets, whether they come
    /// as an array or as the beginning of a sequence.
    pub proof fn lemma_octets_round_trip(a: [u8; 4])
        ensures
            FourCC(a).octets() == a@,
            FourCC::of_seq(a@) == FourCC(a),
            FourCC::of_seq(a@).octets() == a@,
    {
        assert(FourCC::of_seq(a@).0 =~= a);
    }

    /// Two codes are equal exactly when their four octets are pairwise
    /// equal, and `==` decides that.
    pub proof fn lemma_eq_iff_octets(self, other: FourCC)
        ensures
            self == other <==> (forall|i: int| 0 <= i < 4 ==> self.0[i] == other.0[i]),
            self == other <==> self.octets() == other.octets(),
            self.eq_spec(&other) <==> self == other,
    {
        if self.eq_spec(&other) {
            assert(self.0 =~= other.0);
        }
        if self.octets() == other.octets() {
            assert(self.0 =~= other.0);
        }
    }

    /// The code made of the octets at positions 0 to 3 of `buf`; what
    /// follows them is ignored. A sequence of fewer than four octets has no
    /// code: [`FourCC::try_from_slice`] tests the length first.
    pub fn from_slice(buf: &[u8]) -> (c: FourCC)
        requires
            buf@.len() >= 4,
        ensures
            c == FourCC::of_seq(buf@),
            c.octets() == buf@.subrange(0, 4),
    {
        let c = FourCC([buf[0], buf[1], buf[2], buf[3]]);
        assert(c.octets() =~= buf@.subrange(0, 4));
        c
    }

    /// The code made of the first four octets of `buf`, or
    /// `InsufficientLength` where `buf` holds fewer than four.
    pub fn try_from_slice(buf: &[u8]) -> (r: Result<FourCC, InsufficientLength>)
        ensures
            buf@.len() >= 4 ==> r == Ok::<FourCC, InsufficientLength>(FourCC::of_seq(buf@)),
            buf@.len() < 4 ==> r == Err::<FourCC, InsufficientLength>(
                InsufficientLength { len: buf@.len() as usize },
            ),
    {
        if buf.len() < 4 {
            Err(InsufficientLength { len: buf.len() })
        } else {
            Ok(FourCC::from_slice(buf))
        }
    }

    /// The length of a text in octets, as the text constructor reports it:
    /// reduced to 32 bits.
    pub open spec fn reported_len(len: nat) -> u32 {
        (len % 0x1_0000_0000) as u32
    }

    /// The code whose octets are those of the text `s` in its own encoding
    /// (UTF-8). The text is accepted exactly when it is four octets long,
    /// however many characters that makes; otherwise the error is the
    /// length that was found, in octets.
    pub fn from_str(s: &str) -> (r: Result<FourCC, u32>)
        ensures
            s.spec_bytes().len() == 4 ==> r == Ok::<FourCC, u32>(FourCC::of_seq(s.spec_bytes())),
            s.spec_bytes().len() != 4 ==> r == Err::<FourCC, u32>(
                FourCC::reported_len(s.spec_bytes().len()),
            ),
    {
        let b = s.as_bytes();
        let n: usize = b.len();
        if n != 4 {
            let wide: u64 = n as u64;
            return Err((wide % 0x1_0000_0000) as u32);
        }
        Ok(FourCC([b[0], b[1], b[2], b[3]]))
    }

    /// The integer form of this code (the octets read big-endian).
    pub fn from_u32(self: Self) -> (n: u32)
        ensures
            n == self.to_u32_spec(),
            n as int == be_u32(self.0[0], self.0[1], self.0[2], self.0[3]),
    {
        let b0: u8 = self.0[0];
        let b1: u8 = self.0[1];
        let b2: u8 = self.0[2];
        let b3: u8 = self.0[3];
        let n: u32 = ((b0 as u32) << 24 & 0xff000000) | ((b1 as u32) << 16 & 0x00ff0000) | ((b2 as u32)
            << 8 & 0x0000ff00) | ((b3 as u32) & 0x000000ff);
        assert(n == (b0 as u32) * 0x100_0000u32 + (b1 as u32) * 0x1_0000u32 + (b2 as u32) * 0x100u32
            + (b3 as u32)) by (bit_vector)
            requires
                n == ((b0 as u32) << 24 & 0xff000000) | ((b1 as u32) << 16 & 0x00ff0000) | ((b2 as u32)
                    << 8 & 0x0000ff00) | ((b3 as u32) & 0x000000ff),
        ;
        n
    }
}

} // verus!
