use crate::pldm::error::PldmError;
use vstd::prelude::*;
use vstd::string::StringSliceAdditionalSpecFns;

verus! {

/// A PLDM protocol version in text form, "major.minor.update".
pub type ProtocolVersionStr = &'static str;

/// A version in its 32-bit wire form: major, minor, update and alpha bytes,
/// from the most significant byte down.
pub type Ver32 = u32;

/// A PLDM protocol version.
#[derive(Debug, Clone, Copy, PartialEq, Eq, Structural)]
pub struct PldmVersion {
    pub major: u8,
    pub minor: u8,
    pub update: u8,
    pub alpha: u8,
}

/// The byte is an ASCII decimal digit.
pub open spec fn is_digit(b: u8) -> bool {
    0x30 <= b && b <= 0x39
}

/// The value of the decimal number of `len` (1 or 2) digits at `start`.
pub open spec fn dec_value(s: Seq<u8>, start: int, len: int) -> u8 {
    if len == 1 {
        (s[start] - 0x30) as u8
    } else {
        (10 * (s[start] - 0x30) + (s[start + 1] - 0x30)) as u8
    }
}

/// The lengths of the three numbers of a version text: each number runs up
/// to the next dot (or the end), and is one or two digits long.
pub open spec fn version_parts(s: Seq<u8>) -> (int, int, int) {
    let l1: int = if s.len() > 1 && s[1] == 0x2e {
        1
    } else {
        2
    };
    let l2: int = if s.len() > l1 + 2 && s[l1 + 2] == 0x2e {
        1
    } else {
        2
    };
    (l1, l2, s.len() - l1 - l2 - 2)
}

/// The text is "major.minor.update" with numbers of one or two digits.
pub open spec fn is_version_text(s: Seq<u8>) -> bool {
    let (l1, l2, l3) = version_parts(s);
    &&& 1 <= l3 <= 2
    &&& s[l1] == 0x2e
    &&& s[l1 + 1 + l2] == 0x2e
    &&& forall|k: int| 0 <= k < l1 ==> is_digit(#[trigger] s[k])
    &&& forall|k: int| l1 + 1 <= k < l1 + 1 + l2 ==> is_digit(#[trigger] s[k])
    &&& forall|k: int| l1 + l2 + 2 <= k < s.len() ==> is_digit(#[trigger] s[k])
}

/// The version written by a version text.
pub open spec fn parse_version(s: Seq<u8>) -> Option<PldmVersion> {
    if is_version_text(s) {
        let (l1, l2, l3) = version_parts(s);
        Some(
            PldmVersion {
                major: dec_value(s, 0, l1),
                minor: dec_value(s, l1 + 1, l2),
                update: dec_value(s, l1 + l2 + 2, l3),
                alpha: 0,
            },
        )
    } else {
        None
    }
}

/// The binary-coded decimal form of a number below 100: two digits, or 0xF
/// followed by the digit for a single digit.
pub open spec fn bcd(n: u8) -> u8 {
    if n < 10 {
        (0xf0 + n) as u8
    } else {
        ((n / 10) * 16 + n % 10) as u8
    }
}

/// Whether all bytes of `s[from..to]` are digits.
fn all_digits(s: &[u8], from: usize, to: usize) -> (r: bool)
    requires
        from <= to <= s@.len(),
    ensures
        r == (forall|k: int| from <= k < to ==> is_digit(#[trigger] s@[k])),
{
    let mut i = from;
    while i < to
        invariant
            from <= i <= to,
            to <= s@.len(),
            forall|k: int| from <= k < i ==> is_digit(#[trigger] s@[k]),
        decreases to - i,
    {
        if !(0x30 <= s[i] && s[i] <= 0x39) {
            return false;
        }
        i = i + 1;
    }
    true
}

/// The value of the one- or two-digit number at `start`.
fn digits_value(s: &[u8], start: usize, len: usize) -> (r: u8)
    requires
        len == 1 || len == 2,
        start + len <= s@.len(),
        forall|k: int| start <= k < start + len ==> is_digit(#[trigger] s@[k]),
    ensures
        r == dec_value(s@, start as int, len as int),
        r < 100,
{
    assert(is_digit(s@[start as int]));
    if len == 1 {
        s[start] - 0x30
    } else {
        assert(is_digit(s@[start + 1]));
        10 * (s[start] - 0x30) + (s[start + 1] - 0x30)
    }
}

impl PldmVersion {
    /// Parses "major.minor.update" (numbers of one or two digits).
    pub fn from_text(text: &str) -> (r: Result<PldmVersion, PldmError>)
        ensures
            r == (match parse_version(text.spec_bytes()) {
                Some(v) => Ok::<PldmVersion, PldmError>(v),
                None => Err(PldmError::InvalidProtocolVersion),
            }),
    {
        let s = text.as_bytes();
        let ghost sb = s@;
        let n = s.len();
        if n < 5 || n > 8 {
            return Err(PldmError::InvalidProtocolVersion);
        }
        let l1: usize = if s[1] == 0x2e {
            1
        } else {
            2
        };
        let l2: usize = if n > l1 + 2 && s[l1 + 2] == 0x2e {
            1
        } else {
            2
        };
        if n < l1 + l2 + 3 || n > l1 + l2 + 4 {
            return Err(PldmError::InvalidProtocolVersion);
        }
        let l3 = n - l1 - l2 - 2;
        assert(version_parts(sb) == (l1 as int, l2 as int, l3 as int));
        if s[l1] != 0x2e || s[l1 + 1 + l2] != 0x2e {
            return Err(PldmError::InvalidProtocolVersion);
        }
        if !all_digits(s, 0, l1) || !all_digits(s, l1 + 1, l1 + 1 + l2) || !all_digits(
            s,
            l1 + l2 + 2,
            n,
        ) {
            return Err(PldmError::InvalidProtocolVersion);
        }
        let major = digits_value(s, 0, l1);
        let minor = digits_value(s, l1 + 1, l2);
        let update = digits_value(s, l1 + l2 + 2, l3);
        Ok(PldmVersion { major, minor, update, alpha: 0 })
    }

    /// The 32-bit wire form: the binary-coded decimal bytes of major, minor
    /// and update, then the alpha byte.
    pub fn bcd_encode_to_ver32(&self) -> (r: Ver32)
        requires
            self.major < 100,
            self.minor < 100,
            self.update < 100,
        ensures
            r == bcd(self.major) as u32 * 0x100_0000 + bcd(self.minor) as u32 * 0x1_0000 + bcd(
                self.update,
            ) as u32 * 0x100 + self.alpha as u32,
    {
        let a = Self::bcd_byte(self.major) as u32;
        let b = Self::bcd_byte(self.minor) as u32;
        let c = Self::bcd_byte(self.update) as u32;
        a * 0x100_0000 + b * 0x1_0000 + c * 0x100 + self.alpha as u32
    }

    fn bcd_byte(n: u8) -> (r: u8)
        requires
            n < 100,
        ensures
            r == bcd(n),
    {
        if n < 10 {
            0xf0 + n
        } else {
            (n / 10) * 16 + n % 10
        }
    }
}

impl<'a> core::convert::TryFrom<&'a str> for PldmVersion {
    type Error = PldmError;

    fn try_from(text: &'a str) -> (r: Result<PldmVersion, PldmError>) {
        PldmVersion::from_text(text)
    }
}

impl<'a> vstd::std_specs::convert::TryFromSpecImpl<&'a str> for PldmVersion {
    open spec fn obeys_try_from_spec() -> bool {
        true
    }

    open spec fn try_from_spec(text: &'a str) -> Result<PldmVersion, PldmError> {
        match parse_version(text.spec_bytes()) {
            Some(v) => Ok(v),
            None => Err(PldmError::InvalidProtocolVersion),
        }
    }
}

/// A parsed version has numbers below 100.
pub proof fn lemma_parse_version_small(s: Seq<u8>)
    requires
        parse_version(s) is Some,
    ensures
        parse_version(s).unwrap().major < 100,
        parse_version(s).unwrap().minor < 100,
        parse_version(s).unwrap().update < 100,
{
    let (l1, l2, l3) = version_parts(s);
    assert(is_digit(s[0]));
    assert(is_digit(s[l1 - 1]));
    assert(is_digit(s[l1 + 1]));
    assert(is_digit(s[l1 + l2]));
    assert(is_digit(s[l1 + l2 + 2]));
    assert(is_digit(s[s.len() - 1]));
}

} // verus!
