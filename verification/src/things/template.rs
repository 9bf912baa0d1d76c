//! Script templates: fixed parts of text with values between them.

use vstd::prelude::*;
use vstd::string::*;

verus! {

/// The text of an optional string slice.
pub open spec fn slice_text(s: Option<&str>) -> Option<Seq<char>> {
    match s {
        Some(text) => Some(text@),
        None => None,
    }
}

/// A value after one part.
pub fn after(a: &str, x: &str) -> (r: String)
    ensures
        r@ == a@ + x@,
{
    let mut out = String::new();
    out.append(a);
    out.append(x);
    assert(out@ =~= a@ + x@);
    out
}

/// One value between two parts.
pub fn fill1(a: &str, x: &str, b: &str) -> (r: String)
    ensures
        r@ == a@ + x@ + b@,
{
    let mut out = String::new();
    out.append(a);
    out.append(x);
    out.append(b);
    assert(out@ =~= a@ + x@ + b@);
    out
}

/// Two values between three parts.
pub fn fill2(a: &str, x: &str, b: &str, y: &str, c: &str) -> (r: String)
    ensures
        r@ == a@ + x@ + b@ + y@ + c@,
{
    let mut out = fill1(a, x, b);
    out.append(y);
    out.append(c);
    assert(out@ =~= a@ + x@ + b@ + y@ + c@);
    out
}

/// Three values between four parts.
pub fn fill3(a: &str, x: &str, b: &str, y: &str, c: &str, z: &str, d: &str) -> (r: String)
    ensures
        r@ == a@ + x@ + b@ + y@ + c@ + z@ + d@,
{
    let mut out = fill2(a, x, b, y, c);
    out.append(z);
    out.append(d);
    assert(out@ =~= a@ + x@ + b@ + y@ + c@ + z@ + d@);
    out
}

/// The line `head value tail` where there is a value, and nothing where
/// there is none.
pub open spec fn optional_line(value: Option<Seq<char>>, head: Seq<char>, tail: Seq<char>) -> Seq<
    char,
> {
    match value {
        Some(v) => head + v + tail,
        None => Seq::empty(),
    }
}

/// The line `head value tail` where there is a value, and nothing where
/// there is none.
pub fn line_for(value: Option<&str>, head: &str, tail: &str) -> (r: String)
    ensures
        r@ == optional_line(slice_text(value), head@, tail@),
{
    match value {
        Some(v) => fill1(head, v, tail),
        None => String::new(),
    }
}

} // verus!
