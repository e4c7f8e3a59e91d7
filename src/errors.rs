//! Errors of the record parsers: each keeps the record text and the cause.
use vstd::prelude::*;

verus! {

/// `head`, then the record text quoted, then the cause: how a parse error
/// reads.
pub open spec fn report_text(head: Seq<char>, place: Seq<char>, cause: Seq<char>) -> Seq<char> {
    head + place + "': "@ + cause
}

fn report(head: &str, place: &String, cause: &String) -> (r: String)
    ensures
        r@ == report_text(head@, place@, cause@),
{
    let mut r = String::from_str(head);
    r.append(place.as_str());
    r.append("': ");
    r.append(cause.as_str());
    r
}

/// A SCALE record that could not be read.
#[derive(Debug, PartialEq, Eq)]
pub struct ParseScaleCommandError {
    pub place: String,
    pub cause: String,
}

/// An ELLIPSE record that could not be read.
#[derive(Debug, PartialEq, Eq)]
pub struct ParseEllipseError {
    pub place: String,
    pub cause: String,
}

/// A TRIANGLE record that could not be read.
#[derive(Debug, PartialEq, Eq)]
pub struct ParseTriangleError {
    pub place: String,
    pub cause: String,
}

/// A RECTANGLE record that could not be read.
#[derive(Debug, PartialEq, Eq)]
pub struct ParseRectangleError {
    pub place: String,
    pub cause: String,
}

impl ParseScaleCommandError {
    pub fn new(place: String, cause: String) -> (r: Self)
        ensures
            r.place == place,
            r.cause == cause,
    {
        ParseScaleCommandError { place, cause }
    }

    /// The line that reports this error.
    pub fn message(&self) -> (r: String)
        ensures
            r@ == report_text("For SCALE cannot parse `"@, self.place@, self.cause@),
    {
        report("For SCALE cannot parse `", &self.place, &self.cause)
    }
}

impl ParseEllipseError {
    pub fn new(place: String, cause: String) -> (r: Self)
        ensures
            r.place == place,
            r.cause == cause,
    {
        ParseEllipseError { place, cause }
    }

    /// The line that reports this error.
    pub fn message(&self) -> (r: String)
        ensures
            r@ == report_text("For ELLIPSE cannot parse `"@, self.place@, self.cause@),
    {
        report("For ELLIPSE cannot parse `", &self.place, &self.cause)
    }
}

impl ParseTriangleError {
    pub fn new(place: String, cause: String) -> (r: Self)
        ensures
            r.place == place,
            r.cause == cause,
    {
        ParseTriangleError { place, cause }
    }

    /// The line that reports this error.
    pub fn message(&self) -> (r: String)
        ensures
            r@ == report_text("For TRIANGLE cannot parse `"@, self.place@, self.cause@),
    {
        report("For TRIANGLE cannot parse `", &self.place, &self.cause)
    }
}

impl ParseRectangleError {
    pub fn new(place: String, cause: String) -> (r: Self)
        ensures
            r.place == place,
            r.cause == cause,
    {
        ParseRectangleError { place, cause }
    }

    /// The line that reports this error.
    pub fn message(&self) -> (r: String)
        ensures
            r@ == report_text("For RECTANGLE cannot parse `"@, self.place@, self.cause@),
    {
        report("For RECTANGLE cannot parse `", &self.place, &self.cause)
    }
}

/// A shape record that could not be read, of any kind.
#[derive(Debug, PartialEq, Eq)]
pub enum ShapeError {
    Rectangle(ParseRectangleError),
    Triangle(ParseTriangleError),
    Ellipse(ParseEllipseError),
}

impl ShapeError {
    /// The line that reports this error.
    pub fn message(&self) -> (r: String)
        ensures
            r@ == match self {
                ShapeError::Rectangle(e) => report_text(
                    "For RECTANGLE cannot parse `"@,
                    e.place@,
                    e.cause@,
                ),
                ShapeError::Triangle(e) => report_text(
                    "For TRIANGLE cannot parse `"@,
                    e.place@,
                    e.cause@,
                ),
                ShapeError::Ellipse(e) => report_text("For ELLIPSE cannot parse `"@, e.place@, e.cause@),
            },
    {
        match self {
            ShapeError::Rectangle(e) => e.message(),
            ShapeError::Triangle(e) => e.message(),
            ShapeError::Ellipse(e) => e.message(),
        }
    }
}

} // verus!
