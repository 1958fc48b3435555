//! The closed sets of compression variants and time units, and the
//! stable textual names under which they are persisted inside an envelope.

use vstd::prelude::*;
use vstd::string::StringExecFns;
use crate::text::str_eq;

verus! {

broadcast use vstd::string::group_string_axioms;

/// One of the four supported string-compression algorithms.
#[derive(Copy, Clone, Debug, PartialEq, Eq, Structural)]
pub enum CacherCompression {
    /// A compact encoding whose output is not guaranteed to be a valid string.
    InvalidUtf16,
    /// A base64 encoding.
    Base64,
    /// A text-safe 16-bit-code-unit encoding.
    ValidUtf16,
    /// A URI-component-safe encoding.
    Uri,
}

/// One of the eight supported TTL units.
#[derive(Copy, Clone, Debug, PartialEq, Eq, Structural)]
pub enum CacherDateRemainingUnit {
    Milliseconds,
    Seconds,
    Minutes,
    Hours,
    Days,
    Weeks,
    Months,
    Years,
}

/// The canonical name of a compression variant.
pub open spec fn variant_name(v: CacherCompression) -> Seq<char> {
    match v {
        CacherCompression::InvalidUtf16 => "InvalidUtf16"@,
        CacherCompression::Base64 => "Base64"@,
        CacherCompression::ValidUtf16 => "ValidUtf16"@,
        CacherCompression::Uri => "Uri"@,
    }
}

/// The exact inverse of `variant_name` on the canonical names; `None` for
/// any other string.
pub open spec fn parse_variant_spec(s: Seq<char>) -> Option<CacherCompression> {
    if s == "InvalidUtf16"@ {
        Some(CacherCompression::InvalidUtf16)
    } else if s == "ValidUtf16"@ {
        Some(CacherCompression::ValidUtf16)
    } else if s == "Base64"@ {
        Some(CacherCompression::Base64)
    } else if s == "Uri"@ {
        Some(CacherCompression::Uri)
    } else {
        None
    }
}

/// The canonical name of a time unit.
pub open spec fn unit_name(u: CacherDateRemainingUnit) -> Seq<char> {
    match u {
        CacherDateRemainingUnit::Milliseconds => "Milliseconds"@,
        CacherDateRemainingUnit::Seconds => "Seconds"@,
        CacherDateRemainingUnit::Minutes => "Minutes"@,
        CacherDateRemainingUnit::Hours => "Hours"@,
        CacherDateRemainingUnit::Days => "Days"@,
        CacherDateRemainingUnit::Weeks => "Weeks"@,
        CacherDateRemainingUnit::Months => "Months"@,
        CacherDateRemainingUnit::Years => "Years"@,
    }
}

/// The exact inverse of `unit_name` on the canonical names; `None` for any
/// other string.  In particular `"Minutes"` parses to `Minutes`.
pub open spec fn parse_unit_spec(s: Seq<char>) -> Option<CacherDateRemainingUnit> {
    if s == "Milliseconds"@ {
        Some(CacherDateRemainingUnit::Milliseconds)
    } else if s == "Seconds"@ {
        Some(CacherDateRemainingUnit::Seconds)
    } else if s == "Minutes"@ {
        Some(CacherDateRemainingUnit::Minutes)
    } else if s == "Hours"@ {
        Some(CacherDateRemainingUnit::Hours)
    } else if s == "Days"@ {
        Some(CacherDateRemainingUnit::Days)
    } else if s == "Weeks"@ {
        Some(CacherDateRemainingUnit::Weeks)
    } else if s == "Months"@ {
        Some(CacherDateRemainingUnit::Months)
    } else if s == "Years"@ {
        Some(CacherDateRemainingUnit::Years)
    } else {
        None
    }
}

impl CacherCompression {
    /// The canonical name of this variant, as embedded in envelope metadata.
    pub fn name(&self) -> (r: &'static str)
        ensures
            r@ == variant_name(*self),
    {
        match self {
            CacherCompression::InvalidUtf16 => "InvalidUtf16",
            CacherCompression::Base64 => "Base64",
            CacherCompression::ValidUtf16 => "ValidUtf16",
            CacherCompression::Uri => "Uri",
        }
    }

    /// The canonical name as an owned string.
    pub fn to_name(&self) -> (r: String)
        ensures
            r@ == variant_name(*self),
    {
        String::from_str(self.name())
    }

    /// Parses a canonical variant name back to its variant; fails on any
    /// other string.
    pub fn from_str(input: &str) -> (r: Result<CacherCompression, ()>)
        ensures
            r is Ok <==> parse_variant_spec(input@) is Some,
            r is Ok ==> parse_variant_spec(input@) == Some(r->Ok_0),
    {
        if str_eq(input, "InvalidUtf16") {
            Ok(CacherCompression::InvalidUtf16)
        } else if str_eq(input, "ValidUtf16") {
            Ok(CacherCompression::ValidUtf16)
        } else if str_eq(input, "Base64") {
            Ok(CacherCompression::Base64)
        } else if str_eq(input, "Uri") {
            Ok(CacherCompression::Uri)
        } else {
            Err(())
        }
    }
}

impl CacherDateRemainingUnit {
    /// The canonical name of this unit, as embedded in envelope metadata.
    pub fn name(&self) -> (r: &'static str)
        ensures
            r@ == unit_name(*self),
    {
        match self {
            CacherDateRemainingUnit::Milliseconds => "Milliseconds",
            CacherDateRemainingUnit::Seconds => "Seconds",
            CacherDateRemainingUnit::Minutes => "Minutes",
            CacherDateRemainingUnit::Hours => "Hours",
            CacherDateRemainingUnit::Days => "Days",
            CacherDateRemainingUnit::Weeks => "Weeks",
            CacherDateRemainingUnit::Months => "Months",
            CacherDateRemainingUnit::Years => "Years",
        }
    }

    /// The canonical name as an owned string.
    pub fn to_name(&self) -> (r: String)
        ensures
            r@ == unit_name(*self),
    {
        String::from_str(self.name())
    }

    /// Parses a canonical unit name back to its unit; fails on any other
    /// string.
    pub fn from_str(input: &str) -> (r: Result<CacherDateRemainingUnit, ()>)
        ensures
            r is Ok <==> parse_unit_spec(input@) is Some,
            r is Ok ==> parse_unit_spec(input@) == Some(r->Ok_0),
    {
        if str_eq(input, "Milliseconds") {
            Ok(CacherDateRemainingUnit::Milliseconds)
        } else if str_eq(input, "Seconds") {
            Ok(CacherDateRemainingUnit::Seconds)
        } else if str_eq(input, "Minutes") {
            Ok(CacherDateRemainingUnit::Minutes)
        } else if str_eq(input, "Hours") {
            Ok(CacherDateRemainingUnit::Hours)
        } else if str_eq(input, "Days") {
            Ok(CacherDateRemainingUnit::Days)
        } else if str_eq(input, "Weeks") {
            Ok(CacherDateRemainingUnit::Weeks)
        } else if str_eq(input, "Months") {
            Ok(CacherDateRemainingUnit::Months)
        } else if str_eq(input, "Years") {
            Ok(CacherDateRemainingUnit::Years)
        } else {
            Err(())
        }
    }
}

/// Every compression variant round-trips through its canonical name:
/// parsing the name of a variant gives the variant back.
pub proof fn lemma_variant_name_round_trip(v: CacherCompression)
    ensures
        parse_variant_spec(variant_name(v)) == Some(v),
{
    reveal_strlit("InvalidUtf16");
    reveal_strlit("ValidUtf16");
    reveal_strlit("Base64");
    reveal_strlit("Uri");
    assert("InvalidUtf16"@.len() == 12);
    assert("ValidUtf16"@.len() == 10);
    assert("Base64"@.len() == 6);
    assert("Uri"@.len() == 3);
}

/// Every time unit round-trips through its canonical name: parsing the name
/// of a unit gives the unit back.
pub proof fn lemma_unit_name_round_trip(u: CacherDateRemainingUnit)
    ensures
        parse_unit_spec(unit_name(u)) == Some(u),
{
    reveal_strlit("Milliseconds");
    reveal_strlit("Seconds");
    reveal_strlit("Minutes");
    reveal_strlit("Hours");
    reveal_strlit("Days");
    reveal_strlit("Weeks");
    reveal_strlit("Months");
    reveal_strlit("Years");
    assert("Milliseconds"@.len() == 12);
    assert("Seconds"@.len() == 7);
    assert("Minutes"@.len() == 7);
    assert("Hours"@.len() == 5);
    assert("Days"@.len() == 4);
    assert("Weeks"@.len() == 5);
    assert("Months"@.len() == 6);
    assert("Years"@.len() == 5);
    assert("Seconds"@[0] == 'S' && "Minutes"@[0] == 'M');
    assert("Hours"@[0] == 'H' && "Weeks"@[0] == 'W' && "Years"@[0] == 'Y');
}

} // verus!
