//! Rides: a snapshot of one driver and one rider, the trip, and its
//! ratings, feedback and confirmations.
use crate::driver::{Driver, DriverView};
use crate::rating::{rating_text, Rating};
use crate::record::{render_field, rendered, Record};
use crate::rider::{Rider, RiderView};
use crate::status::{ride_status_text, RideStatus};
use crate::text::text_eq;
use vstd::prelude::*;
use vstd::string::*;

verus! {

/// A ride. The driver and rider are copies taken when the ride was made:
/// later changes to the driver or rider stores do not reach them.
#[derive(Clone, Debug)]
pub struct Ride {
    pub rideid: String,
    pub driver: Driver,
    pub rider: Rider,
    pub pickup: String,
    pub dropoff: String,
    pub status: RideStatus,
    pub timestamp: String,
    pub rating: Rating,
    pub driverrating: Rating,
    pub riderrating: Rating,
    pub driverfeedback: String,
    pub riderfeedback: String,
    pub riderconfirmation: String,
    pub driverconfirmation: String,
}

/// A ride as plain values.
pub struct RideView {
    pub rideid: Seq<char>,
    pub driver: DriverView,
    pub rider: RiderView,
    pub pickup: Seq<char>,
    pub dropoff: Seq<char>,
    pub status: RideStatus,
    pub timestamp: Seq<char>,
    pub rating: Rating,
    pub driverrating: Rating,
    pub riderrating: Rating,
    pub driverfeedback: Seq<char>,
    pub riderfeedback: Seq<char>,
    pub riderconfirmation: Seq<char>,
    pub driverconfirmation: Seq<char>,
}

impl View for Ride {
    type V = RideView;

    open spec fn view(&self) -> RideView {
        RideView {
            rideid: self.rideid@,
            driver: self.driver@,
            rider: self.rider@,
            pickup: self.pickup@,
            dropoff: self.dropoff@,
            status: self.status,
            timestamp: self.timestamp@,
            rating: self.rating,
            driverrating: self.driverrating,
            riderrating: self.riderrating,
            driverfeedback: self.driverfeedback@,
            riderfeedback: self.riderfeedback@,
            riderconfirmation: self.riderconfirmation@,
            driverconfirmation: self.driverconfirmation@,
        }
    }
}

/// The fields of a ride, by name. `Driver` and `Rider` render as the
/// driver's and rider's names; `DriverAddress` and `RiderAddress` as their
/// addresses.
#[derive(Clone, Copy, Debug, PartialEq, Eq, Structural)]
pub enum RideField {
    RideId,
    Driver,
    Rider,
    Pickup,
    Dropoff,
    Status,
    Timestamp,
    Rating,
    DriverRating,
    RiderRating,
    DriverFeedback,
    RiderFeedback,
    RiderConfirmation,
    DriverConfirmation,
    DriverAddress,
    RiderAddress,
}

pub open spec fn ride_field_named(name: Seq<char>) -> Option<RideField> {
    if name == "rideid"@ {
        Some(RideField::RideId)
    } else if name == "driver"@ {
        Some(RideField::Driver)
    } else if name == "rider"@ {
        Some(RideField::Rider)
    } else if name == "pickup"@ {
        Some(RideField::Pickup)
    } else if name == "dropoff"@ {
        Some(RideField::Dropoff)
    } else if name == "status"@ {
        Some(RideField::Status)
    } else if name == "timestamp"@ {
        Some(RideField::Timestamp)
    } else if name == "rating"@ {
        Some(RideField::Rating)
    } else if name == "driverrating"@ {
        Some(RideField::DriverRating)
    } else if name == "riderrating"@ {
        Some(RideField::RiderRating)
    } else if name == "driverfeedback"@ {
        Some(RideField::DriverFeedback)
    } else if name == "riderfeedback"@ {
        Some(RideField::RiderFeedback)
    } else if name == "riderconfirmation"@ {
        Some(RideField::RiderConfirmation)
    } else if name == "driverconfirmation"@ {
        Some(RideField::DriverConfirmation)
    } else if name == "driveraddress"@ {
        Some(RideField::DriverAddress)
    } else if name == "rideraddress"@ {
        Some(RideField::RiderAddress)
    } else {
        None
    }
}

impl RideView {
    /// The text a field renders to.
    pub open spec fn text_of(self, f: RideField) -> Seq<char> {
        match f {
            RideField::RideId => self.rideid,
            RideField::Driver => self.driver.name,
            RideField::Rider => self.rider.name,
            RideField::Pickup => self.pickup,
            RideField::Dropoff => self.dropoff,
            RideField::Status => ride_status_text(self.status),
            RideField::Timestamp => self.timestamp,
            RideField::Rating => rating_text(self.rating.hundredths as nat),
            RideField::DriverRating => rating_text(self.driverrating.hundredths as nat),
            RideField::RiderRating => rating_text(self.riderrating.hundredths as nat),
            RideField::DriverFeedback => self.driverfeedback,
            RideField::RiderFeedback => self.riderfeedback,
            RideField::RiderConfirmation => self.riderconfirmation,
            RideField::DriverConfirmation => self.driverconfirmation,
            RideField::DriverAddress => self.driver.address,
            RideField::RiderAddress => self.rider.address,
        }
    }
}

impl RideField {
    /// The field with this name, if there is one.
    pub fn from_name(name: &str) -> (r: Option<RideField>)
        ensures
            r == ride_field_named(name@),
    {
        if text_eq(name, "rideid") {
            Some(RideField::RideId)
        } else if text_eq(name, "driver") {
            Some(RideField::Driver)
        } else if text_eq(name, "rider") {
            Some(RideField::Rider)
        } else if text_eq(name, "pickup") {
            Some(RideField::Pickup)
        } else if text_eq(name, "dropoff") {
            Some(RideField::Dropoff)
        } else if text_eq(name, "status") {
            Some(RideField::Status)
        } else if text_eq(name, "timestamp") {
            Some(RideField::Timestamp)
        } else if text_eq(name, "rating") {
            Some(RideField::Rating)
        } else if text_eq(name, "driverrating") {
            Some(RideField::DriverRating)
        } else if text_eq(name, "riderrating") {
            Some(RideField::RiderRating)
        } else if text_eq(name, "driverfeedback") {
            Some(RideField::DriverFeedback)
        } else if text_eq(name, "riderfeedback") {
            Some(RideField::RiderFeedback)
        } else if text_eq(name, "riderconfirmation") {
            Some(RideField::RiderConfirmation)
        } else if text_eq(name, "driverconfirmation") {
            Some(RideField::DriverConfirmation)
        } else if text_eq(name, "driveraddress") {
            Some(RideField::DriverAddress)
        } else if text_eq(name, "rideraddress") {
            Some(RideField::RiderAddress)
        } else {
            None
        }
    }
}

impl Record for Ride {
    open spec fn field_text(v: RideView, field: Seq<char>) -> Option<Seq<char>> {
        match ride_field_named(field) {
            Some(f) => Some(v.text_of(f)),
            None => None,
        }
    }

    fn find_field(&self, field: &str) -> (r: Option<String>) {
        match RideField::from_name(field) {
            Some(f) => Some(self.value_of(f)),
            None => None,
        }
    }

    fn snapshot(&self) -> (r: Ride) {
        Ride {
            rideid: self.rideid.clone(),
            driver: self.driver.snapshot(),
            rider: self.rider.snapshot(),
            pickup: self.pickup.clone(),
            dropoff: self.dropoff.clone(),
            status: self.status,
            timestamp: self.timestamp.clone(),
            rating: self.rating,
            driverrating: self.driverrating,
            riderrating: self.riderrating,
            driverfeedback: self.driverfeedback.clone(),
            riderfeedback: self.riderfeedback.clone(),
            riderconfirmation: self.riderconfirmation.clone(),
            driverconfirmation: self.driverconfirmation.clone(),
        }
    }
}

/// A freshly requested ride: no id, `Active`, zero ratings, and empty
/// feedback and confirmations.
pub open spec fn requested_ride(
    driver: DriverView,
    rider: RiderView,
    pickup: Seq<char>,
    dropoff: Seq<char>,
    timestamp: Seq<char>,
) -> RideView {
    RideView {
        rideid: Seq::empty(),
        driver,
        rider,
        pickup,
        dropoff,
        status: RideStatus::Active,
        timestamp,
        rating: Rating { hundredths: 0 },
        driverrating: Rating { hundredths: 0 },
        riderrating: Rating { hundredths: 0 },
        driverfeedback: Seq::empty(),
        riderfeedback: Seq::empty(),
        riderconfirmation: Seq::empty(),
        driverconfirmation: Seq::empty(),
    }
}

impl Ride {
    /// A new ride for `rider` with `driver`, as `requested_ride` describes.
    pub fn requested(
        driver: Driver,
        rider: Rider,
        pickup: String,
        dropoff: String,
        timestamp: String,
    ) -> (r: Ride)
        ensures
            r@ == requested_ride(driver@, rider@, pickup@, dropoff@, timestamp@),
    {
        Ride {
            rideid: String::new(),
            driver,
            rider,
            pickup,
            dropoff,
            status: RideStatus::Active,
            timestamp,
            rating: Rating::zero(),
            driverrating: Rating::zero(),
            riderrating: Rating::zero(),
            driverfeedback: String::new(),
            riderfeedback: String::new(),
            riderconfirmation: String::new(),
            driverconfirmation: String::new(),
        }
    }

    /// The value of one field as text.
    pub fn value_of(&self, f: RideField) -> (r: String)
        ensures
            r@ == self@.text_of(f),
    {
        match f {
            RideField::RideId => self.rideid.clone(),
            RideField::Driver => self.driver.get_name(),
            RideField::Rider => self.rider.get_name(),
            RideField::Pickup => self.pickup.clone(),
            RideField::Dropoff => self.dropoff.clone(),
            RideField::Status => self.status.to_text(),
            RideField::Timestamp => self.timestamp.clone(),
            RideField::Rating => self.rating.to_text(),
            RideField::DriverRating => self.driverrating.to_text(),
            RideField::RiderRating => self.riderrating.to_text(),
            RideField::DriverFeedback => self.driverfeedback.clone(),
            RideField::RiderFeedback => self.riderfeedback.clone(),
            RideField::RiderConfirmation => self.riderconfirmation.clone(),
            RideField::DriverConfirmation => self.driverconfirmation.clone(),
            RideField::DriverAddress => self.driver.address.clone(),
            RideField::RiderAddress => self.rider.address.clone(),
        }
    }

    /// The field named `field` as text; empty for an unknown name.
    pub fn get_field(&self, field: String) -> (r: String)
        ensures
            r@ == rendered::<Ride>(self@, field@),
    {
        render_field(self, field.as_str())
    }

    pub fn get_id(&self) -> (r: String)
        ensures
            r@ == self.rideid@,
    {
        self.rideid.clone()
    }

    /// Replaces the ride's driver snapshot.
    pub fn update_driver(&mut self, driver: Driver)
        ensures
            final(self)@ == (RideView { driver: driver@, ..old(self)@ }),
    {
        self.driver = driver;
    }

    /// Replaces the ride's rider snapshot.
    pub fn update_rider(&mut self, rider: Rider)
        ensures
            final(self)@ == (RideView { rider: rider@, ..old(self)@ }),
    {
        self.rider = rider;
    }
}

} // verus!
