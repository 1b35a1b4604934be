//! Country codes used for markets and user countries.

use vstd::prelude::*;

verus! {

/// An [ISO 3166-1 alpha-2](https://en.wikipedia.org/wiki/ISO_3166-1_alpha-2) country code, such as `FI`: two ASCII
/// capital letters.
#[derive(Debug, Clone, Copy, PartialEq, Eq, Hash, Structural)]
pub struct CountryCode {
    first: char,
    second: char,
}

/// An ASCII capital letter.
pub open spec fn is_code_letter(c: char) -> bool {
    'A' <= c && c <= 'Z'
}

impl CountryCode {
    #[verifier::type_invariant]
    closed spec fn well_formed(self) -> bool {
        is_code_letter(self.first) && is_code_letter(self.second)
    }

    /// The two letters of the code.
    pub closed spec fn spec_code(&self) -> Seq<char> {
        seq![self.first, self.second]
    }

    /// Reads a country code from its two letters; `None` unless `code` is two ASCII capital letters.
    pub fn from_code(code: &str) -> (r: Option<CountryCode>)
        ensures
            match r {
                Some(c) => c.spec_code() == code@,
                None => !(code@.len() == 2 && is_code_letter(code@[0]) && is_code_letter(code@[1])),
            },
    {
        if code.unicode_len() != 2 {
            return None;
        }
        let first = code.get_char(0);
        let second = code.get_char(1);
        if 'A' <= first && first <= 'Z' && 'A' <= second && second <= 'Z' {
            let c = CountryCode { first, second };
            assert(c.spec_code() =~= code@);
            Some(c)
        } else {
            None
        }
    }

    /// The two letters of the code, e.g. `FI`.
    pub fn to_string(&self) -> (r: String)
        ensures
            r@ == self.spec_code(),
    {
        let mut r = String::new();
        r.push(self.first);
        r.push(self.second);
        r
    }
}

} // verus!
