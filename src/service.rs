//! The ride-hailing service: three record stores and the operations that
//! callers invoke on them, including the ride-request workflow.
use crate::driver::{Driver, DriverView};
use crate::rating::Rating;
use crate::record::{Record, ServiceError};
use crate::ride::{requested_ride, Ride, RideView};
use crate::rider::{Rider, RiderView};
use crate::status::CurrentStatus;
use crate::store::{
    all_matches, edited, first_match, first_record, has_match, replaced, views, without_first,
    Edit, RecordStore,
};
use vstd::prelude::*;

verus! {

/// Sets a driver's rating.
pub struct SetRating(pub Rating);

/// Sets a driver's status.
pub struct SetStatus(pub CurrentStatus);

/// Replaces a ride's driver snapshot.
pub struct SetRideDriver(pub Driver);

/// Replaces a ride's rider snapshot.
pub struct SetRideRider(pub Rider);

impl Edit<Driver> for SetRating {
    open spec fn applied(&self, v: DriverView) -> DriverView {
        DriverView { rating: self.0, ..v }
    }

    fn apply(&self, r: &mut Driver) {
        r.update_rating(self.0);
    }
}

impl Edit<Driver> for SetStatus {
    open spec fn applied(&self, v: DriverView) -> DriverView {
        DriverView { currentstatus: self.0, ..v }
    }

    fn apply(&self, r: &mut Driver) {
        r.update_currentstatus(self.0);
    }
}

impl Edit<Ride> for SetRideDriver {
    open spec fn applied(&self, v: RideView) -> RideView {
        RideView { driver: self.0@, ..v }
    }

    fn apply(&self, r: &mut Ride) {
        r.update_driver(self.0.snapshot());
    }
}

impl Edit<Ride> for SetRideRider {
    open spec fn applied(&self, v: RideView) -> RideView {
        RideView { rider: self.0@, ..v }
    }

    fn apply(&self, r: &mut Ride) {
        r.update_rider(self.0.snapshot());
    }
}

/// The ride that `request_ride` adds for these inputs: the earliest active
/// driver paired with `rider` (meaningful when some driver is active).
pub open spec fn ride_for_request(
    drivers: Seq<DriverView>,
    rider: RiderView,
    pickup: Seq<char>,
    dropoff: Seq<char>,
    timestamp: Seq<char>,
) -> RideView {
    requested_ride(
        drivers[first_match::<Driver>(drivers, "currentstatus"@, "Active"@)],
        rider,
        pickup,
        dropoff,
        timestamp,
    )
}

/// The riders, drivers and rides of one service, each in its own ordered
/// store.
pub struct RideService {
    pub riders: RecordStore<Rider>,
    pub drivers: RecordStore<Driver>,
    pub rides: RecordStore<Ride>,
}

impl RideService {
    /// A service with three empty stores.
    pub fn new() -> (s: RideService)
        ensures
            s.riders@ == Seq::<<Rider as View>::V>::empty(),
            s.drivers@ == Seq::<DriverView>::empty(),
            s.rides@ == Seq::<RideView>::empty(),
    {
        RideService { riders: RecordStore::new(), drivers: RecordStore::new(), rides: RecordStore::new() }
    }

    pub fn get_rides(&self) -> (r: Vec<Ride>)
        ensures
            views(r@) == self.rides@,
    {
        self.rides.list_all()
    }

    pub fn get_riders(&self) -> (r: Vec<Rider>)
        ensures
            views(r@) == self.riders@,
    {
        self.riders.list_all()
    }

    pub fn get_drivers(&self) -> (r: Vec<Driver>)
        ensures
            views(r@) == self.drivers@,
    {
        self.drivers.list_all()
    }

    pub fn register_rider(&mut self, rider: Rider)
        ensures
            final(self).riders@ == old(self).riders@.push(rider@),
            final(self).drivers@ == old(self).drivers@,
            final(self).rides@ == old(self).rides@,
    {
        self.riders.insert(rider);
    }

    pub fn register_driver(&mut self, driver: Driver)
        ensures
            final(self).drivers@ == old(self).drivers@.push(driver@),
            final(self).riders@ == old(self).riders@,
            final(self).rides@ == old(self).rides@,
    {
        self.drivers.insert(driver);
    }

    pub fn register_ride(&mut self, ride: Ride)
        ensures
            final(self).rides@ == old(self).rides@.push(ride@),
            final(self).riders@ == old(self).riders@,
            final(self).drivers@ == old(self).drivers@,
    {
        self.rides.insert(ride);
    }

    /// Sets the rating of every driver named `driver_name`.
    pub fn update_driver_rating(&mut self, driver_name: String, rating: Rating)
        ensures
            final(self).drivers@ == edited::<Driver, SetRating>(
                old(self).drivers@,
                "name"@,
                driver_name@,
                SetRating(rating),
            ),
            final(self).riders@ == old(self).riders@,
            final(self).rides@ == old(self).rides@,
    {
        self.drivers.update_all("name", driver_name.as_str(), &SetRating(rating));
    }

    /// Sets the status of every driver named `driver_name`.
    pub fn update_driver_status(&mut self, driver_name: String, status: CurrentStatus)
        ensures
            final(self).drivers@ == edited::<Driver, SetStatus>(
                old(self).drivers@,
                "name"@,
                driver_name@,
                SetStatus(status),
            ),
            final(self).riders@ == old(self).riders@,
            final(self).rides@ == old(self).rides@,
    {
        self.drivers.update_all("name", driver_name.as_str(), &SetStatus(status));
    }

    /// The earliest driver named `driver_name`.
    pub fn search_driver_by_name(&self, driver_name: String) -> (r: Option<Driver>)
        ensures
            r is None <==> first_record::<Driver>(self.drivers@, "name"@, driver_name@) is None,
            r matches Some(d) ==> first_record::<Driver>(self.drivers@, "name"@, driver_name@)
                == Some(d@),
    {
        self.drivers.search_first("name", driver_name.as_str())
    }

    /// The earliest driver with this contact.
    pub fn search_driver_by_contact(&self, contact: String) -> (r: Option<Driver>)
        ensures
            r is None <==> first_record::<Driver>(self.drivers@, "contact"@, contact@) is None,
            r matches Some(d) ==> first_record::<Driver>(self.drivers@, "contact"@, contact@)
                == Some(d@),
    {
        self.drivers.search_first("contact", contact.as_str())
    }

    /// The earliest driver at this address.
    pub fn search_driver_by_address(&self, principal_id: String) -> (r: Option<Driver>)
        ensures
            r is None <==> first_record::<Driver>(self.drivers@, "address"@, principal_id@) is None,
            r matches Some(d) ==> first_record::<Driver>(self.drivers@, "address"@, principal_id@)
                == Some(d@),
    {
        self.drivers.search_first("address", principal_id.as_str())
    }

    /// The earliest rider at this address.
    pub fn search_rider_by_address(&self, principal_id: String) -> (r: Option<Rider>)
        ensures
            r is None <==> first_record::<Rider>(self.riders@, "address"@, principal_id@) is None,
            r matches Some(d) ==> first_record::<Rider>(self.riders@, "address"@, principal_id@)
                == Some(d@),
    {
        self.riders.search_first("address", principal_id.as_str())
    }

    /// The earliest rider whose address is this principal id; the same
    /// search as `search_rider_by_address`.
    pub fn search_rider_by_principal_id(&self, principal_id: String) -> (r: Option<Rider>)
        ensures
            r is None <==> first_record::<Rider>(self.riders@, "address"@, principal_id@) is None,
            r matches Some(d) ==> first_record::<Rider>(self.riders@, "address"@, principal_id@)
                == Some(d@),
    {
        self.search_rider_by_address(principal_id)
    }

    /// Every rider whose `field` renders as `value`, in store order.
    pub fn search_rider_by_field(&self, field: String, value: String) -> (r: Vec<Rider>)
        ensures
            views(r@) == all_matches::<Rider>(self.riders@, field@, value@),
    {
        self.riders.search_all(field.as_str(), value.as_str())
    }

    /// Every driver whose `field` renders as `value`, in store order.
    pub fn search_driver_by_field(&self, field: String, value: String) -> (r: Vec<Driver>)
        ensures
            views(r@) == all_matches::<Driver>(self.drivers@, field@, value@),
    {
        self.drivers.search_all(field.as_str(), value.as_str())
    }

    /// Every ride whose `field` renders as `value`, in store order.
    pub fn search_ride_by_field(&self, field: String, value: String) -> (r: Vec<Ride>)
        ensures
            views(r@) == all_matches::<Ride>(self.rides@, field@, value@),
    {
        self.rides.search_all(field.as_str(), value.as_str())
    }

    /// The earliest ride with this id.
    pub fn search_ride_by_id(&self, rideid: String) -> (r: Option<Ride>)
        ensures
            r is None <==> first_record::<Ride>(self.rides@, "rideid"@, rideid@) is None,
            r matches Some(d) ==> first_record::<Ride>(self.rides@, "rideid"@, rideid@) == Some(d@),
    {
        self.rides.search_first("rideid", rideid.as_str())
    }

    /// Takes out the earliest ride with this id, if any.
    pub fn remove_ride(&mut self, ride_id: String)
        ensures
            final(self).rides@ == without_first::<Ride>(old(self).rides@, "rideid"@, ride_id@),
            final(self).riders@ == old(self).riders@,
            final(self).drivers@ == old(self).drivers@,
    {
        self.rides.remove_first("rideid", ride_id.as_str());
    }

    /// Takes out the earliest ride with this id, if any, and appends `ride`.
    pub fn update_ride(&mut self, ride_id: String, ride: Ride)
        ensures
            final(self).rides@ == replaced::<Ride>(old(self).rides@, "rideid"@, ride_id@, ride@),
            final(self).riders@ == old(self).riders@,
            final(self).drivers@ == old(self).drivers@,
    {
        self.rides.replace_first("rideid", ride_id.as_str(), ride);
    }

    /// Takes out the earliest rider at this address, if any.
    pub fn remove_rider(&mut self, address: String)
        ensures
            final(self).riders@ == without_first::<Rider>(old(self).riders@, "address"@, address@),
            final(self).drivers@ == old(self).drivers@,
            final(self).rides@ == old(self).rides@,
    {
        self.riders.remove_first("address", address.as_str());
    }

    /// Takes out the earliest driver at this address, if any, and appends
    /// `driver`.
    pub fn update_driver(&mut self, address: String, driver: Driver)
        ensures
            final(self).drivers@ == replaced::<Driver>(
                old(self).drivers@,
                "address"@,
                address@,
                driver@,
            ),
            final(self).riders@ == old(self).riders@,
            final(self).rides@ == old(self).rides@,
    {
        self.drivers.replace_first("address", address.as_str(), driver);
    }

    /// Replaces the driver snapshot of every ride with this id.
    pub fn update_driver_for_ride(&mut self, rideid: String, driver: Driver)
        ensures
            final(self).rides@ == edited::<Ride, SetRideDriver>(
                old(self).rides@,
                "rideid"@,
                rideid@,
                SetRideDriver(driver),
            ),
            final(self).riders@ == old(self).riders@,
            final(self).drivers@ == old(self).drivers@,
    {
        let edit = SetRideDriver(driver);
        self.rides.update_all("rideid", rideid.as_str(), &edit);
    }

    /// Replaces the rider snapshot of every ride with this id.
    pub fn update_rider_for_ride(&mut self, rideid: String, rider: Rider)
        ensures
            final(self).rides@ == edited::<Ride, SetRideRider>(
                old(self).rides@,
                "rideid"@,
                rideid@,
                SetRideRider(rider),
            ),
            final(self).riders@ == old(self).riders@,
            final(self).drivers@ == old(self).drivers@,
    {
        let edit = SetRideRider(rider);
        self.rides.update_all("rideid", rideid.as_str(), &edit);
    }

    /// Every driver whose status is `Active`, in store order.
    #[allow(non_snake_case)]
    pub fn returnDriversAvailable(&self) -> (r: Vec<Driver>)
        ensures
            views(r@) == all_matches::<Driver>(self.drivers@, "currentstatus"@, "Active"@),
    {
        self.drivers.search_all("currentstatus", "Active")
    }

    /// Every rider whose role is `rider`, in store order.
    #[allow(non_snake_case)]
    pub fn getRiders(&self) -> (r: Vec<Rider>)
        ensures
            views(r@) == all_matches::<Rider>(self.riders@, "role"@, "rider"@),
    {
        self.riders.search_all("role", "rider")
    }

    /// Registers a driver and hands back a copy of it.
    #[allow(non_snake_case)]
    pub fn registerDriver(&mut self, driver: Driver) -> (r: Driver)
        ensures
            r@ == driver@,
            final(self).drivers@ == old(self).drivers@.push(driver@),
            final(self).riders@ == old(self).riders@,
            final(self).rides@ == old(self).rides@,
    {
        let copy = driver.snapshot();
        self.drivers.insert(driver);
        copy
    }

    /// Registers a rider and hands back a copy of it.
    #[allow(non_snake_case)]
    pub fn registerRider(&mut self, rider: Rider) -> (r: Rider)
        ensures
            r@ == rider@,
            final(self).riders@ == old(self).riders@.push(rider@),
            final(self).drivers@ == old(self).drivers@,
            final(self).rides@ == old(self).rides@,
    {
        let copy = rider.snapshot();
        self.riders.insert(rider);
        copy
    }

    /// The driver's details, as given.
    #[allow(non_snake_case)]
    pub fn getDriverInfo(driver: Driver) -> (r: Driver)
        ensures
            r@ == driver@,
    {
        driver
    }

    /// The rider's details, as given.
    #[allow(non_snake_case)]
    pub fn getRiderInfo(rider: Rider) -> (r: Rider)
        ensures
            r@ == rider@,
    {
        rider
    }

    /// Pairs `rider` with the earliest driver whose status is `Active` and
    /// records the new ride (no id, `Active`, zero ratings, empty feedback
    /// and confirmations). With no active driver it reports
    /// `NoAvailableDriver` and changes nothing.
    pub fn request_ride(&mut self, rider: Rider, pickup: String, dropoff: String, timestamp: String) -> (r:
        Result<(), ServiceError>)
        ensures
            r is Err <==> !has_match::<Driver>(old(self).drivers@, "currentstatus"@, "Active"@),
            r matches Err(e) ==> e == ServiceError::NoAvailableDriver && final(self).rides@ == old(
                self,
            ).rides@,
            r is Ok ==> final(self).rides@ == old(self).rides@.push(
                ride_for_request(old(self).drivers@, rider@, pickup@, dropoff@, timestamp@),
            ),
            final(self).riders@ == old(self).riders@,
            final(self).drivers@ == old(self).drivers@,
    {
        match self.drivers.position_first("currentstatus", "Active") {
            Some(i) => {
                let driver = self.drivers.get(i).snapshot();
                let ride = Ride::requested(driver, rider, pickup, dropoff, timestamp);
                self.rides.insert(ride);
                Ok(())
            },
            None => Err(ServiceError::NoAvailableDriver),
        }
    }
}

} // verus!
