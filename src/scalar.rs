//! Reading and writing scalar values in KeyValues text: booleans are
//! written `1` and `0`.

use vstd::prelude::*;
use crate::text::str_eq;

verus! {

/// A value that can be read from the text of a KeyValues scalar.
pub trait FromStr: Sized {
    type Err;

    fn from_str(s: &str) -> Result<Self, Self::Err>;
}

/// A value that can be written as the text of a KeyValues scalar.
pub trait ToString {
    fn to_string(&self) -> String;
}

/// The text was neither `1` nor `0`.
#[derive(Debug, Clone, Copy, PartialEq, Eq, Structural)]
pub struct ParseBoolError;

/// The boolean a scalar text stands for: `1` is true and `0` is false.
pub fn parse_bool(s: &str) -> (r: Result<bool, ParseBoolError>)
    ensures
        s@ == seq!['1'] ==> r == Ok::<bool, ParseBoolError>(true),
        s@ == seq!['0'] ==> r == Ok::<bool, ParseBoolError>(false),
        s@ != seq!['1'] && s@ != seq!['0'] ==> r == Err::<bool, ParseBoolError>(ParseBoolError),
{
    proof {
        reveal_strlit("1");
        reveal_strlit("0");
        assert("1"@ =~= seq!['1']);
        assert("0"@ =~= seq!['0']);
        assert(seq!['0'][0] != seq!['1'][0]);
    }
    if str_eq(s, "1") {
        Ok(true)
    } else if str_eq(s, "0") {
        Ok(false)
    } else {
        Err(ParseBoolError)
    }
}

/// The scalar text of a boolean: `1` or `0`.
pub fn bool_text(b: bool) -> (r: String)
    ensures
        r@ == if b {
            seq!['1']
        } else {
            seq!['0']
        },
{
    proof {
        reveal_strlit("1");
        reveal_strlit("0");
        assert("1"@ =~= seq!['1']);
        assert("0"@ =~= seq!['0']);
    }
    if b {
        "1".to_owned()
    } else {
        "0".to_owned()
    }
}

impl FromStr for bool {
    type Err = ParseBoolError;

    fn from_str(s: &str) -> Result<bool, ParseBoolError> {
        parse_bool(s)
    }
}

impl ToString for bool {
    fn to_string(&self) -> String {
        bool_text(*self)
    }
}

impl ToString for str {
    fn to_string(&self) -> String {
        self.to_owned()
    }
}

impl ToString for &str {
    fn to_string(&self) -> String {
        (*self).to_owned()
    }
}

} // verus!
