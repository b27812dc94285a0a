//! The ways in which projecting and collecting can fail.

use vstd::prelude::*;

verus! {

/// A flag of the raw record without which no view can be built.
#[derive(Debug, Clone, Copy, PartialEq, Eq, Structural)]
pub enum RequiredField {
    Private,
    Fork,
}

impl RequiredField {
    /// The name that the upstream source gives the field.
    pub open spec fn spec_name(self) -> Seq<char> {
        match self {
            RequiredField::Private => "private"@,
            RequiredField::Fork => "fork"@,
        }
    }

    /// The name that the upstream source gives the field.
    pub fn name(&self) -> (s: &'static str)
        ensures
            s@ == self.spec_name(),
    {
        match self {
            RequiredField::Private => "private",
            RequiredField::Fork => "fork",
        }
    }
}

/// Why a raw record could not be projected.
#[derive(Debug, Clone, Copy, PartialEq, Eq, Structural)]
pub enum ProjectionError {
    /// The record lacks a flag that decides how it is shown.
    MissingField(RequiredField),
}

/// A failure of the upstream call itself: network, authentication, rate limit.
#[derive(Debug, PartialEq, Eq)]
pub struct TransportError {
    pub message: String,
}

impl Clone for TransportError {
    fn clone(&self) -> (r: Self)
        ensures
            r == *self,
    {
        TransportError { message: self.message.clone() }
    }
}

/// Why a collection could not be assembled.
#[derive(Debug, PartialEq, Eq)]
pub enum CollectorError {
    /// The upstream source could not be reached or refused the request.
    Transport(TransportError),
    /// The upstream source answered, but with a record of an unexpected shape.
    Projection(ProjectionError),
}

impl Clone for CollectorError {
    fn clone(&self) -> (r: Self)
        ensures
            r == *self,
    {
        match self {
            CollectorError::Transport(e) => CollectorError::Transport(e.clone()),
            CollectorError::Projection(e) => CollectorError::Projection(*e),
        }
    }
}

} // verus!
