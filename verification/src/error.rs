//! The ways in which an operation of this library can fail.

use vstd::prelude::*;

verus! {

/// A field that a base is loaded from.
#[derive(Clone, Copy, Debug, PartialEq, Eq, Structural)]
pub enum RowField {
    /// The identifier of the base.
    BaseId,
    /// The latitude at which the base stands.
    Lat,
    /// The longitude at which the base stands.
    Lon,
    /// The number of stalls of the base.
    StallCount,
}

impl RowField {
    /// The key under which the field stands in a row.
    pub open spec fn spec_name(self) -> Seq<char> {
        match self {
            RowField::BaseId => "base_id"@,
            RowField::Lat => "lat"@,
            RowField::Lon => "lon"@,
            RowField::StallCount => "stall_count"@,
        }
    }

    /// The key under which the field stands in a row.
    pub fn name(&self) -> (r: &'static str)
        ensures
            r@ == self.spec_name(),
    {
        match self {
            RowField::BaseId => "base_id",
            RowField::Lat => "lat",
            RowField::Lon => "lon",
            RowField::StallCount => "stall_count",
        }
    }

    /// What the field is called in a message.
    pub open spec fn spec_label(self) -> Seq<char> {
        match self {
            RowField::BaseId => "base_id"@,
            RowField::Lat => "lat"@,
            RowField::Lon => "lon"@,
            RowField::StallCount => "stall count"@,
        }
    }

    /// What the field is called in a message.
    pub fn label(&self) -> (r: &'static str)
        ensures
            r@ == self.spec_label(),
    {
        match self {
            RowField::BaseId => "base_id",
            RowField::Lat => "lat",
            RowField::Lon => "lon",
            RowField::StallCount => "stall count",
        }
    }
}

/// Why a field's text is not the number it should be.
#[derive(Clone, Copy, Debug, PartialEq, Eq, Structural)]
pub enum ParseCause {
    /// The text is empty.
    Empty,
    /// The text holds something other than decimal digits after an optional `+`.
    InvalidDigit,
    /// The digits stand for a number that does not fit.
    Overflow,
    /// The text is not a coordinate.
    NotANumber,
}

impl ParseCause {
    /// The cause in words.
    pub open spec fn spec_message(self) -> Seq<char> {
        match self {
            ParseCause::Empty => "cannot parse integer from empty string"@,
            ParseCause::InvalidDigit => "invalid digit found in string"@,
            ParseCause::Overflow => "number too large to fit in target type"@,
            ParseCause::NotANumber => "invalid float literal"@,
        }
    }

    /// The cause in words.
    pub fn message(&self) -> (r: &'static str)
        ensures
            r@ == self.spec_message(),
    {
        match self {
            ParseCause::Empty => "cannot parse integer from empty string",
            ParseCause::InvalidDigit => "invalid digit found in string",
            ParseCause::Overflow => "number too large to fit in target type",
            ParseCause::NotANumber => "invalid float literal",
        }
    }
}

/// Every failure this library reports.
#[derive(Clone, Copy, Debug, PartialEq, Eq, Structural)]
pub enum HiveError {
    /// The reserved name `public` was used as a group identifier.
    ReservedIdentifier,
    /// A row lacks a field that a base cannot be loaded without.
    MissingField(RowField),
    /// A field is there, but its text is not a number.
    ParseError(RowField, ParseCause),
    /// A stall was returned to a base whose stalls are all available.
    CapacityExceeded,
    /// A link identifier is not two geoids joined by one dash.
    InvalidLinkId,
    /// A text is not the index of an H3 cell.
    InvalidGeoid,
    /// A coordinate could not be resolved to an H3 cell.
    UnresolvedLocation,
}

impl HiveError {
    /// The failure in words, as it is shown to a user.
    pub open spec fn spec_message(self) -> Seq<char> {
        match self {
            HiveError::ReservedIdentifier => {
                "public is reserved, please use another membership id"@
            },
            HiveError::MissingField(field) => "cannot load base without a "@ + field.spec_label()
                + " value"@,
            HiveError::ParseError(_, cause) => cause.spec_message(),
            HiveError::CapacityExceeded => "base already has max stalls"@,
            HiveError::InvalidLinkId => "LinkId not in expected format of [Geoid]-[Geoid]"@,
            HiveError::InvalidGeoid => "geoid is not the index of an H3 cell"@,
            HiveError::UnresolvedLocation => "coordinate could not be resolved to an H3 cell"@,
        }
    }

    /// The failure in words, as it is shown to a user.
    pub fn message(&self) -> (r: String)
        ensures
            r@ == self.spec_message(),
    {
        match self {
            HiveError::ReservedIdentifier => String::from_str(
                "public is reserved, please use another membership id",
            ),
            HiveError::MissingField(field) => {
                let mut text = String::from_str("cannot load base without a ");
                text.append(field.label());
                text.append(" value");
                text
            },
            HiveError::ParseError(_, cause) => String::from_str(cause.message()),
            HiveError::CapacityExceeded => String::from_str("base already has max stalls"),
            HiveError::InvalidLinkId => String::from_str(
                "LinkId not in expected format of [Geoid]-[Geoid]",
            ),
            HiveError::InvalidGeoid => String::from_str("geoid is not the index of an H3 cell"),
            HiveError::UnresolvedLocation => String::from_str(
                "coordinate could not be resolved to an H3 cell",
            ),
        }
    }
}

} // verus!
