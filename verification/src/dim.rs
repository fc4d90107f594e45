//! Vector and matrix dimensions, and how a dimension is read from a numeral.

use vstd::prelude::*;
use crate::text::decimal;
use crate::text::push_decimal;

verus! {

/// A dimension of a vector, or of one side of a matrix.
#[derive(Debug, Clone, Copy, PartialEq, Eq, Structural)]
pub enum Dim {
    D2,
    D3,
    D4,
}

/// The error of `std`'s integer parser.
#[verifier::external_type_specification]
#[verifier::external_body]
pub struct ExParseIntError(core::num::ParseIntError);

/// Why a text is no dimension.
#[derive(Debug)]
pub enum ParseDimError {
    /// The text is no numeral that fits in a byte.
    Int(core::num::ParseIntError),
    /// The numeral is none of 2, 3 and 4.
    InvalidDim(u8),
}

/// Whether every character is a decimal digit.
pub open spec fn all_digits(s: Seq<char>) -> bool {
    forall|i: int| 0 <= i < s.len() ==> '0' <= #[trigger] s[i] <= '9'
}

/// The number that a sequence of decimal digits writes.
pub open spec fn digits_value(s: Seq<char>) -> nat
    decreases s.len(),
{
    if s.len() == 0 {
        0
    } else {
        digits_value(s.drop_last()) * 10 + ((s.last() as u32 - '0' as u32) as nat)
    }
}

/// The text without one leading plus sign.
pub open spec fn unsigned_part(s: Seq<char>) -> Seq<char> {
    if s.len() > 0 && s[0] == '+' {
        s.subrange(1, s.len() as int)
    } else {
        s
    }
}

/// The byte that a text writes in decimal: an optional plus sign and then
/// one or more digits, nothing else, with a value of at most 255.
pub open spec fn parse_u8_spec(s: Seq<char>) -> Option<u8> {
    let d = unsigned_part(s);
    if d.len() > 0 && all_digits(d) && digits_value(d) <= 255 {
        Some(digits_value(d) as u8)
    } else {
        None
    }
}

/// `str::parse::<u8>`. The contract claims what the documentation of
/// `u8::from_str` says: the text is an optional `+` followed by decimal
/// digits only, at least one, and the value fits in a byte; anything else
/// is an error.
#[verifier::external_body]
pub(crate) fn parse_u8(s: &str) -> (r: Result<u8, core::num::ParseIntError>)
    ensures
        r is Ok <==> parse_u8_spec(s@) is Some,
        r matches Ok(n) ==> parse_u8_spec(s@) == Some(n),
{
    s.parse::<u8>()
}

/// `ToString::to_string` on the integer parser's error: its message.
#[verifier::external_body]
pub(crate) fn parse_int_error_text(err: &core::num::ParseIntError) -> String {
    err.to_string()
}

impl Dim {
    /// The number of components.
    pub open spec fn count(self) -> nat {
        match self {
            Dim::D2 => 2,
            Dim::D3 => 3,
            Dim::D4 => 4,
        }
    }

    /// The dimension with `n` components, if there is one.
    pub open spec fn of_count(n: nat) -> Option<Dim> {
        if n == 2 {
            Some(Dim::D2)
        } else if n == 3 {
            Some(Dim::D3)
        } else if n == 4 {
            Some(Dim::D4)
        } else {
            None
        }
    }

    /// The number of components, as a byte-sized integer.
    pub fn to_u8(self) -> (n: u8)
        ensures
            n == self.count(),
    {
        match self {
            Dim::D2 => 2,
            Dim::D3 => 3,
            Dim::D4 => 4,
        }
    }

    /// The number of components, as an index-sized integer.
    pub fn to_usize(self) -> (n: usize)
        ensures
            n == self.count(),
    {
        match self {
            Dim::D2 => 2,
            Dim::D3 => 3,
            Dim::D4 => 4,
        }
    }

    /// `n` times the number of components.
    pub open spec fn scaled(self, n: nat) -> nat {
        match self {
            Dim::D2 => 2 * n,
            Dim::D3 => 3 * n,
            Dim::D4 => 4 * n,
        }
    }

    /// `n` times the number of components.
    pub fn times(self, n: usize) -> (r: usize)
        requires
            n * 4 <= usize::MAX,
        ensures
            r == self.scaled(n as nat),
            r == n * self.count(),
    {
        match self {
            Dim::D2 => n * 2,
            Dim::D3 => n * 3,
            Dim::D4 => n * 4,
        }
    }

    /// The dimension with `n` components; any other number is rejected
    /// and handed back in the error.
    pub fn from_number(n: u8) -> (r: Result<Dim, ParseDimError>)
        ensures
            match r {
                Ok(d) => Dim::of_count(n as nat) == Some(d),
                Err(ParseDimError::InvalidDim(m)) => Dim::of_count(n as nat) is None && m == n,
                Err(ParseDimError::Int(_)) => false,
            },
    {
        if n == 2 {
            Ok(Dim::D2)
        } else if n == 3 {
            Ok(Dim::D3)
        } else if n == 4 {
            Ok(Dim::D4)
        } else {
            Err(ParseDimError::InvalidDim(n))
        }
    }

    /// Reads a dimension from its decimal numeral.
    ///
    /// A text that writes no byte gives `ParseDimError::Int`; a byte other
    /// than 2, 3 and 4 gives `ParseDimError::InvalidDim` with that byte.
    pub fn from_str(s: &str) -> (r: Result<Dim, ParseDimError>)
        ensures
            match r {
                Ok(d) => parse_u8_spec(s@) matches Some(n) && Dim::of_count(n as nat) == Some(d),
                Err(ParseDimError::InvalidDim(m)) => parse_u8_spec(s@) == Some(m) && Dim::of_count(
                    m as nat,
                ) is None,
                Err(ParseDimError::Int(_)) => parse_u8_spec(s@) is None,
            },
    {
        match parse_u8(s) {
            Ok(n) => Dim::from_number(n),
            Err(err) => Err(ParseDimError::Int(err)),
        }
    }

    /// The numeral of the dimension.
    pub fn to_string(self) -> (s: String)
        ensures
            s@ == decimal(self.count()),
    {
        let mut s = String::new();
        push_decimal(&mut s, self.to_usize());
        assert(s@ =~= decimal(self.count()));
        s
    }
}

impl ParseDimError {
    /// The text that an invalid dimension `n` is reported with.
    pub open spec fn invalid_dim_text(n: u8) -> Seq<char> {
        "`"@ + decimal(n as nat) + "` is not allowed as a dimension\n\nallowed dimensions are\n- 2, 3, 4"@
    }

    /// The diagnostic of the error. For a numeral that could not be read it
    /// is the integer parser's own message.
    pub fn message(&self) -> (s: String)
        ensures
            self matches ParseDimError::InvalidDim(n) ==> s@ == Self::invalid_dim_text(*n),
    {
        match self {
            ParseDimError::Int(err) => parse_int_error_text(err),
            ParseDimError::InvalidDim(n) => {
                let mut s = String::from_str("`");
                push_decimal(&mut s, *n as usize);
                s.append("` is not allowed as a dimension\n\nallowed dimensions are\n- 2, 3, 4");
                s
            },
        }
    }
}

impl From<Dim> for u8 {
    fn from(value: Dim) -> (n: u8) {
        value.to_u8()
    }
}

impl vstd::std_specs::convert::FromSpecImpl<Dim> for u8 {
    open spec fn obeys_from_spec() -> bool {
        true
    }

    open spec fn from_spec(value: Dim) -> u8 {
        value.count() as u8
    }
}

impl From<Dim> for usize {
    fn from(value: Dim) -> (n: usize) {
        value.to_usize()
    }
}

impl vstd::std_specs::convert::FromSpecImpl<Dim> for usize {
    open spec fn obeys_from_spec() -> bool {
        true
    }

    open spec fn from_spec(value: Dim) -> usize {
        value.count() as usize
    }
}

/// Scaling by a dimension is multiplying by its number of components.
pub proof fn lemma_scaled(dim: Dim, n: nat)
    ensures
        dim.scaled(n) == n * dim.count(),
        dim.scaled(n) == dim.count() * n,
{
}

} // verus!
