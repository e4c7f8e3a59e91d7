//! The record grammar: a keyword, then a body of whitespace-separated fields.
//! A body with too few fields, or with a field that is not a number, is
//! rejected in that order; the geometric checks come after.
use vstd::prelude::*;
use crate::errors::{ParseEllipseError, ParseRectangleError, ParseScaleCommandError, ParseTriangleError};
use crate::text::{split_tokens, tokens, views};

verus! {

/// The leading word of a record.
#[derive(Debug, Clone, Copy, PartialEq, Eq, Structural)]
pub enum Keyword {
    Rectangle,
    Triangle,
    Ellipse,
    Scale,
}

/// The keyword that `name` spells, if any.
pub open spec fn keyword_of(name: Seq<char>) -> Option<Keyword> {
    if name == "RECTANGLE"@ {
        Some(Keyword::Rectangle)
    } else if name == "TRIANGLE"@ {
        Some(Keyword::Triangle)
    } else if name == "ELLIPSE"@ {
        Some(Keyword::Ellipse)
    } else if name == "SCALE"@ {
        Some(Keyword::Scale)
    } else {
        None
    }
}

/// Whether the two texts hold the same characters.
pub fn same_text(a: &str, b: &str) -> (r: bool)
    ensures
        r == (a@ == b@),
{
    let n = a.unicode_len();
    if n != b.unicode_len() {
        return false;
    }
    let mut i: usize = 0;
    while i < n
        invariant
            n == a@.len() == b@.len(),
            i <= n,
            a@.take(i as int) == b@.take(i as int),
        decreases n - i,
    {
        if a.get_char(i) != b.get_char(i) {
            assert(a@[i as int] != b@[i as int]);
            return false;
        }
        assert(a@.take(i + 1) =~= a@.take(i as int).push(a@[i as int]));
        assert(b@.take(i + 1) =~= b@.take(i as int).push(b@[i as int]));
        i = i + 1;
    }
    assert(a@.take(n as int) =~= a@);
    assert(b@.take(n as int) =~= b@);
    true
}

/// The keyword that `name` spells, if any.
pub fn keyword(name: &str) -> (r: Option<Keyword>)
    ensures
        r == keyword_of(name@),
{
    if same_text(name, "RECTANGLE") {
        Some(Keyword::Rectangle)
    } else if same_text(name, "TRIANGLE") {
        Some(Keyword::Triangle)
    } else if same_text(name, "ELLIPSE") {
        Some(Keyword::Ellipse)
    } else if same_text(name, "SCALE") {
        Some(Keyword::Scale)
    } else {
        None
    }
}

/// The first `n` tokens of `s`, or how many it has where that is fewer.
fn leading_tokens(s: &str, n: usize) -> (r: Result<Vec<String>, usize>)
    ensures
        match r {
            Ok(v) => tokens(s@).len() >= n && views(v@) == tokens(s@).take(n as int),
            Err(found) => found == tokens(s@).len() && found < n,
        },
{
    let mut v = split_tokens(s);
    if v.len() < n {
        assert(views(v@).len() == v@.len());
        return Err(v.len());
    }
    let ghost all = v@;
    v.truncate(n);
    assert(views(v@) =~= views(all).take(n as int));
    Ok(v)
}

/// The cause given for a RECTANGLE body with `found` fields.
pub open spec fn rectangle_shortage(found: nat) -> Seq<char> {
    if found == 0 {
        "No coords provided (need 4)"@
    } else {
        "Not enough coords (need 4)"@
    }
}

/// The cause given for a TRIANGLE body with `found` fields.
pub open spec fn triangle_shortage(found: nat) -> Seq<char> {
    if found == 0 {
        "No coords provided (need 6)"@
    } else {
        "Not enough coords (need 6)"@
    }
}

/// The cause given for an ELLIPSE body with `found` fields.
pub open spec fn ellipse_shortage(found: nat) -> Seq<char> {
    if found == 0 {
        "No coords provided (need 2)"@
    } else if found == 1 {
        "Not enough coords (need 2)"@
    } else if found == 2 {
        "No vertical radius after coords"@
    } else {
        "No horizontal radius after coords"@
    }
}

/// The cause given for a SCALE body with `found` fields.
pub open spec fn scale_shortage(found: nat) -> Seq<char> {
    if found == 0 {
        "No parameters provided (need 3)"@
    } else {
        "Not enough parameters (need 3)"@
    }
}

/// The cause given for a field that is not a number.
pub open spec fn not_a_number(field: Seq<char>) -> Seq<char> {
    "Cannot parse `"@ + field + "', expected float32"@
}

fn not_a_number_cause(field: &String) -> (r: String)
    ensures
        r@ == not_a_number(field@),
{
    let mut r = String::from_str("Cannot parse `");
    r.append(field.as_str());
    r.append("', expected float32");
    r
}

/// The four fields of a RECTANGLE body: x1 y1 x2 y2.
pub fn rectangle_fields(s: &str) -> (r: Result<Vec<String>, ParseRectangleError>)
    ensures
        match r {
            Ok(v) => tokens(s@).len() >= 4 && views(v@) == tokens(s@).take(4),
            Err(e) => tokens(s@).len() < 4 && e.place@ == s@ && e.cause@ == rectangle_shortage(
                tokens(s@).len(),
            ),
        },
{
    match leading_tokens(s, 4) {
        Ok(v) => Ok(v),
        Err(found) => {
            let cause = if found == 0 {
                String::from_str("No coords provided (need 4)")
            } else {
                String::from_str("Not enough coords (need 4)")
            };
            Err(ParseRectangleError::new(String::from_str(s), cause))
        },
    }
}

/// The six fields of a TRIANGLE body: the vertices a, b and c.
pub fn triangle_fields(s: &str) -> (r: Result<Vec<String>, ParseTriangleError>)
    ensures
        match r {
            Ok(v) => tokens(s@).len() >= 6 && views(v@) == tokens(s@).take(6),
            Err(e) => tokens(s@).len() < 6 && e.place@ == s@ && e.cause@ == triangle_shortage(
                tokens(s@).len(),
            ),
        },
{
    match leading_tokens(s, 6) {
        Ok(v) => Ok(v),
        Err(found) => {
            let cause = if found == 0 {
                String::from_str("No coords provided (need 6)")
            } else {
                String::from_str("Not enough coords (need 6)")
            };
            Err(ParseTriangleError::new(String::from_str(s), cause))
        },
    }
}

/// The four fields of an ELLIPSE body: center x and y, vertical radius,
/// horizontal radius.
pub fn ellipse_fields(s: &str) -> (r: Result<Vec<String>, ParseEllipseError>)
    ensures
        match r {
            Ok(v) => tokens(s@).len() >= 4 && views(v@) == tokens(s@).take(4),
            Err(e) => tokens(s@).len() < 4 && e.place@ == s@ && e.cause@ == ellipse_shortage(
                tokens(s@).len(),
            ),
        },
{
    match leading_tokens(s, 4) {
        Ok(v) => Ok(v),
        Err(found) => {
            let cause = if found == 0 {
                String::from_str("No coords provided (need 2)")
            } else if found == 1 {
                String::from_str("Not enough coords (need 2)")
            } else if found == 2 {
                String::from_str("No vertical radius after coords")
            } else {
                String::from_str("No horizontal radius after coords")
            };
            Err(ParseEllipseError::new(String::from_str(s), cause))
        },
    }
}

/// The three fields of a SCALE body: pivot x and y, factor.
pub fn scale_fields(s: &str) -> (r: Result<Vec<String>, ParseScaleCommandError>)
    ensures
        match r {
            Ok(v) => tokens(s@).len() >= 3 && views(v@) == tokens(s@).take(3),
            Err(e) => tokens(s@).len() < 3 && e.place@ == s@ && e.cause@ == scale_shortage(
                tokens(s@).len(),
            ),
        },
{
    match leading_tokens(s, 3) {
        Ok(v) => Ok(v),
        Err(found) => {
            let cause = if found == 0 {
                String::from_str("No parameters provided (need 3)")
            } else {
                String::from_str("Not enough parameters (need 3)")
            };
            Err(ParseScaleCommandError::new(String::from_str(s), cause))
        },
    }
}

/// The position of the first field that is not a number, given for each
/// field whether it reads as one.
pub fn first_unreadable(readable: &Vec<bool>) -> (r: Option<usize>)
    ensures
        match r {
            Some(k) => k < readable@.len() && !readable@[k as int] && forall|j: int|
                0 <= j < k ==> readable@[j],
            None => forall|j: int| 0 <= j < readable@.len() ==> readable@[j],
        },
{
    let mut i: usize = 0;
    while i < readable.len()
        invariant
            i <= readable@.len(),
            forall|j: int| 0 <= j < i ==> readable@[j],
        decreases readable@.len() - i,
    {
        if !readable[i] {
            return Some(i);
        }
        i = i + 1;
    }
    None
}

impl ParseRectangleError {
    /// The error for a RECTANGLE record `place` whose field `field` is not a
    /// number.
    pub fn unreadable(place: &str, field: &String) -> (r: Self)
        ensures
            r.place@ == place@,
            r.cause@ == not_a_number(field@),
    {
        ParseRectangleError::new(String::from_str(place), not_a_number_cause(field))
    }
}

impl ParseTriangleError {
    /// The error for a TRIANGLE record `place` whose field `field` is not a
    /// number.
    pub fn unreadable(place: &str, field: &String) -> (r: Self)
        ensures
            r.place@ == place@,
            r.cause@ == not_a_number(field@),
    {
        ParseTriangleError::new(String::from_str(place), not_a_number_cause(field))
    }
}

impl ParseEllipseError {
    /// The error for an ELLIPSE record `place` whose field `field` is not a
    /// number.
    pub fn unreadable(place: &str, field: &String) -> (r: Self)
        ensures
            r.place@ == place@,
            r.cause@ == not_a_number(field@),
    {
        ParseEllipseError::new(String::from_str(place), not_a_number_cause(field))
    }
}

impl ParseScaleCommandError {
    /// The error for a SCALE record `place` whose field `field` is not a
    /// number.
    pub fn unreadable(place: &str, field: &String) -> (r: Self)
        ensures
            r.place@ == place@,
            r.cause@ == not_a_number(field@),
    {
        ParseScaleCommandError::new(String::from_str(place), not_a_number_cause(field))
    }
}

} // verus!
