//! The two status enumerations and their text forms.
use crate::text::text_eq;
use vstd::prelude::*;
use vstd::string::*;

verus! {

/// Whether a driver is currently taking rides.
#[derive(Clone, Copy, Debug, PartialEq, Eq, Structural)]
pub enum CurrentStatus {
    Active,
    Inactive,
}

/// Where a ride stands.
#[derive(Clone, Copy, Debug, PartialEq, Eq, Structural)]
pub enum RideStatus {
    Active,
    Completed,
    Cancelled,
}

pub open spec fn current_status_text(s: CurrentStatus) -> Seq<char> {
    match s {
        CurrentStatus::Active => "Active"@,
        CurrentStatus::Inactive => "Inactive"@,
    }
}

pub open spec fn current_status_named(t: Seq<char>) -> Option<CurrentStatus> {
    if t == "Active"@ {
        Some(CurrentStatus::Active)
    } else if t == "Inactive"@ {
        Some(CurrentStatus::Inactive)
    } else {
        None
    }
}

pub open spec fn ride_status_text(s: RideStatus) -> Seq<char> {
    match s {
        RideStatus::Active => "Active"@,
        RideStatus::Completed => "Completed"@,
        RideStatus::Cancelled => "Cancelled"@,
    }
}

pub open spec fn ride_status_named(t: Seq<char>) -> Option<RideStatus> {
    if t == "Active"@ {
        Some(RideStatus::Active)
    } else if t == "Completed"@ {
        Some(RideStatus::Completed)
    } else if t == "Cancelled"@ {
        Some(RideStatus::Cancelled)
    } else {
        None
    }
}

impl CurrentStatus {
    /// True exactly for `Active`.
    pub fn is_active(&self) -> (r: bool)
        ensures
            r == (*self == CurrentStatus::Active),
    {
        match self {
            CurrentStatus::Active => true,
            CurrentStatus::Inactive => false,
        }
    }

    /// The status's name: `Active` or `Inactive`.
    pub fn to_text(&self) -> (r: String)
        ensures
            r@ == current_status_text(*self),
    {
        match self {
            CurrentStatus::Active => String::from_str("Active"),
            CurrentStatus::Inactive => String::from_str("Inactive"),
        }
    }

    /// The status that a name denotes; `None` for any other text.
    pub fn parse(text: &str) -> (r: Option<CurrentStatus>)
        ensures
            r == current_status_named(text@),
    {
        if text_eq(text, "Active") {
            Some(CurrentStatus::Active)
        } else if text_eq(text, "Inactive") {
            Some(CurrentStatus::Inactive)
        } else {
            None
        }
    }
}

impl RideStatus {
    /// The status's name: `Active`, `Completed` or `Cancelled`.
    pub fn to_text(&self) -> (r: String)
        ensures
            r@ == ride_status_text(*self),
    {
        match self {
            RideStatus::Active => String::from_str("Active"),
            RideStatus::Completed => String::from_str("Completed"),
            RideStatus::Cancelled => String::from_str("Cancelled"),
        }
    }

    /// The status that a name denotes; `None` for any other text.
    pub fn parse(text: &str) -> (r: Option<RideStatus>)
        ensures
            r == ride_status_named(text@),
    {
        if text_eq(text, "Active") {
            Some(RideStatus::Active)
        } else if text_eq(text, "Completed") {
            Some(RideStatus::Completed)
        } else if text_eq(text, "Cancelled") {
            Some(RideStatus::Cancelled)
        } else {
            None
        }
    }
}

} // verus!
