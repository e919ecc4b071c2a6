//! Validated locality identifiers.
//!
//! A `LocalityId` wraps a code drawn from the embedded directory: `ZWL`
//! followed by six decimal digits.  Construction from an arbitrary string
//! fails for the empty string and for any string the directory does not
//! know; a constructed identifier always denotes exactly one directory
//! entry.

use vstd::prelude::*;
use vstd::string::*;

use crate::directory::entry_spec;
use crate::directory::lookup_entry;
use crate::strutil::str_eq;

verus! {

/// Whether a character is a decimal digit.
pub open spec fn is_digit(c: char) -> bool {
    48 <= c as int <= 57
}

/// The numeric value of a decimal digit character.
pub open spec fn digit_val(c: char) -> int {
    c as int - 48
}

/// Whether a string has the shape of a locality code: `ZWL` followed by six
/// decimal digits.
pub open spec fn is_code_shape(s: Seq<char>) -> bool {
    &&& s.len() == 9
    &&& s[0] == 'Z'
    &&& s[1] == 'W'
    &&& s[2] == 'L'
    &&& forall|i: int| 3 <= i < 9 ==> is_digit(#[trigger] s[i])
}

/// The numeric part of a code-shaped string.
pub open spec fn code_num(s: Seq<char>) -> int {
    digit_val(s[3]) * 100000 + digit_val(s[4]) * 10000 + digit_val(s[5]) * 1000 + digit_val(s[6])
        * 100 + digit_val(s[7]) * 10 + digit_val(s[8])
}

/// Whether a string is a known locality code: it has the code shape and the
/// directory maps its numeric part back to exactly this string.
pub open spec fn valid_code(s: Seq<char>) -> bool {
    &&& is_code_shape(s)
    &&& (match entry_spec(code_num(s)) {
        Some(e) => e.0 == s,
        None => false,
    })
}

/// The error returned when a string is not a known locality code.
#[derive(Debug)]
pub struct InvalidLocalityId {}

impl InvalidLocalityId {
    /// Builds the (payload-free) invalid-identifier error.
    pub fn new() -> InvalidLocalityId {
        InvalidLocalityId {  }
    }
}

/// Reads one character of the identifier as a decimal digit.
fn digit_of(id: &str, i: usize) -> (r: Option<u32>)
    requires
        i < id@.len(),
    ensures
        r is Some <==> is_digit(id@[i as int]),
        r matches Some(d) ==> d as int == digit_val(id@[i as int]),
{
    let c = id.get_char(i);
    let u = c as u32;
    if 48 <= u && u <= 57 {
        Some(u - 48)
    } else {
        None
    }
}

/// Parses the numeric part out of a code-shaped string, rejecting any
/// string without the code shape.
fn parse_code(id: &str) -> (r: Option<u32>)
    ensures
        r is Some <==> is_code_shape(id@),
        r matches Some(n) ==> n as int == code_num(id@),
{
    let len = id.unicode_len();
    if len != 9 {
        return None;
    }
    if id.get_char(0) != 'Z' || id.get_char(1) != 'W' || id.get_char(2) != 'L' {
        return None;
    }
    let d3 = match digit_of(id, 3) {
        Some(d) => d,
        None => {
            return None;
        },
    };
    let d4 = match digit_of(id, 4) {
        Some(d) => d,
        None => {
            return None;
        },
    };
    let d5 = match digit_of(id, 5) {
        Some(d) => d,
        None => {
            return None;
        },
    };
    let d6 = match digit_of(id, 6) {
        Some(d) => d,
        None => {
            return None;
        },
    };
    let d7 = match digit_of(id, 7) {
        Some(d) => d,
        None => {
            return None;
        },
    };
    let d8 = match digit_of(id, 8) {
        Some(d) => d,
        None => {
            return None;
        },
    };
    Some(d3 * 100000 + d4 * 10000 + d5 * 1000 + d6 * 100 + d7 * 10 + d8)
}

/// Looks an arbitrary code string up in the directory: the canonical code,
/// the display name, and the coordinates in microdegrees.  Returns an entry
/// exactly for the known codes.
pub fn lookup(code: &str) -> (r: Option<(&'static str, &'static str, i64, i64)>)
    ensures
        valid_code(code@) ==> crate::directory::entry_option_model(r) == entry_spec(
            code_num(code@),
        ),
        !valid_code(code@) ==> r is None,
{
    let n = match parse_code(code) {
        Some(n) => n,
        None => {
            return None;
        },
    };
    match lookup_entry(n) {
        Some(e) => {
            if str_eq(e.0, code) {
                Some(e)
            } else {
                None
            }
        },
        None => None,
    }
}

/// An identifier validated against the embedded directory.  A live value
/// always carries the canonical code literal together with its numeric
/// part, and the two agree with the directory.
#[derive(Clone, Copy, Debug)]
pub struct LocalityId {
    code: &'static str,
    num: u32,
}

impl LocalityId {
    /// The identifier's code, as a character sequence.
    pub closed spec fn code_spec(&self) -> Seq<char> {
        self.code@
    }

    /// The numeric part of the identifier's code.
    pub closed spec fn num_spec(&self) -> int {
        self.num as int
    }

    /// A well-formed identifier denotes exactly one directory entry, and
    /// carries that entry's canonical code.
    pub closed spec fn wf(&self) -> bool {
        match entry_spec(self.num as int) {
            Some(e) => e.0 == self.code@,
            None => false,
        }
    }

    /// Validates a string as a locality code.  Fails exactly on the strings
    /// the directory does not know — the empty string among them.
    pub fn from_str(id: &str) -> (r: Result<LocalityId, InvalidLocalityId>)
        ensures
            r is Ok <==> valid_code(id@),
            r matches Ok(l) ==> l.wf() && l.code_spec() == id@ && l.num_spec() == code_num(id@),
    {
        if id.is_empty() {
            return Err(InvalidLocalityId::new());
        }
        let n = match parse_code(id) {
            Some(n) => n,
            None => {
                return Err(InvalidLocalityId::new());
            },
        };
        match lookup_entry(n) {
            Some(e) => {
                if str_eq(e.0, id) {
                    Ok(LocalityId { code: e.0, num: n })
                } else {
                    Err(InvalidLocalityId::new())
                }
            },
            None => Err(InvalidLocalityId::new()),
        }
    }

    /// The canonical code string of this identifier.
    pub fn code(&self) -> (r: &'static str)
        ensures
            r@ == self.code_spec(),
    {
        self.code
    }

    /// The display name the directory holds for this identifier.
    pub fn locality_name(&self) -> (r: Option<&'static str>)
        ensures
            (match entry_spec(self.num_spec()) {
                Some(e) => r matches Some(s) && s@ == e.1,
                None => r is None,
            }),
    {
        match lookup_entry(self.num) {
            Some(e) => Some(e.1),
            None => None,
        }
    }

    /// The coordinates the directory holds for this identifier, in
    /// microdegrees of latitude and longitude.
    pub fn locality_lat_long(&self) -> (r: Option<(i64, i64)>)
        ensures
            (match entry_spec(self.num_spec()) {
                Some(e) => r matches Some(p) && p.0 == e.2 && p.1 == e.3,
                None => r is None,
            }),
    {
        match lookup_entry(self.num) {
            Some(e) => Some((e.2, e.3)),
            None => None,
        }
    }

    /// Renders the identifier for display: the code, a space, and the
    /// display name, with a placeholder where the directory does not know
    /// the code.
    pub fn display_string(&self) -> (r: String)
        ensures
            r@ == self.code_spec() + " "@ + (match entry_spec(self.num_spec()) {
                Some(e) => e.1,
                None => "<Unknown LocalityId>"@,
            }),
    {
        let name: &'static str = match lookup_entry(self.num) {
            Some(e) => e.1,
            None => "<Unknown LocalityId>",
        };
        let s = self.code.to_owned();
        let s = s.concat(" ");
        s.concat(name)
    }
}

} // verus!
