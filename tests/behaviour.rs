use rideshare::driver::{Driver, DriverField};
use rideshare::ledger::{locate_archived_block, ArchiveSpan};
use rideshare::rating::Rating;
use rideshare::record::{field_or_error, ServiceError};
use rideshare::ride::{Ride, RideField};
use rideshare::rider::{Rider, RiderField, DEFAULT_ADDRESS};
use rideshare::service::RideService;
use rideshare::status::{CurrentStatus, RideStatus};
use rideshare::store::RecordStore;
use rideshare::text::{decimal_string, read_digits, text_eq};

fn driver(name: &str, status: CurrentStatus, address: &str) -> Driver {
    Driver::new(
        name.to_string(),
        "1234567890".to_string(),
        "test@email.com".to_string(),
        "driver".to_string(),
        "ABC123".to_string(),
        "1".to_string(),
        "Toyota".to_string(),
        "Corolla".to_string(),
        "Black".to_string(),
        "SUV".to_string(),
        "2020".to_string(),
        Rating::zero(),
        status,
        address.to_string(),
    )
}

fn rider(name: &str, address: &str) -> Rider {
    Rider::new(
        name.to_string(),
        "555".to_string(),
        "a@b.c".to_string(),
        "rider".to_string(),
        address.to_string(),
    )
}

#[test]
fn insert_appends_after_earlier_records() {
    let mut store: RecordStore<Rider> = RecordStore::new();
    store.insert(rider("A", "x"));
    store.insert(rider("B", "y"));
    store.insert(rider("C", "z"));
    let all = store.list_all();
    let names: Vec<String> = all.iter().map(|r| r.name.clone()).collect();
    assert_eq!(names, vec!["A", "B", "C"]);
    assert_eq!(store.len(), 3);
}

#[test]
fn search_first_returns_earliest_match() {
    let mut store: RecordStore<Rider> = RecordStore::new();
    store.insert(rider("A", "same"));
    store.insert(rider("B", "same"));
    let found = store.search_first("address", "same").unwrap();
    assert_eq!(found.name, "A");
    assert_eq!(found.get_field("address".to_string()), "same");
    assert_eq!(store.position_first("address", "same"), Some(0));
}

#[test]
fn search_without_match_returns_nothing() {
    let mut service = RideService::new();
    service.register_driver(driver("Kelsey", CurrentStatus::Active, "a1"));
    assert!(service.search_driver_by_name("Nobody".to_string()).is_none());
    assert!(service.search_driver_by_field("name".to_string(), "Nobody".to_string()).is_empty());
    assert!(service.search_ride_by_field("rideid".to_string(), "r".to_string()).is_empty());
}

#[test]
fn search_all_keeps_store_order_and_filters() {
    let mut service = RideService::new();
    service.register_driver(driver("A", CurrentStatus::Active, "a1"));
    service.register_driver(driver("B", CurrentStatus::Inactive, "a2"));
    service.register_driver(driver("C", CurrentStatus::Active, "a3"));
    let active = service.search_driver_by_field("currentstatus".to_string(), "Active".to_string());
    let names: Vec<String> = active.iter().map(|d| d.name.clone()).collect();
    assert_eq!(names, vec!["A", "C"]);
    let available = service.returnDriversAvailable();
    assert_eq!(available.len(), 2);
    assert_eq!(available[1].name, "C");
}

#[test]
fn unknown_field_renders_empty_and_is_reported() {
    let d = driver("A", CurrentStatus::Active, "a1");
    assert_eq!(d.get_field("nosuchfield".to_string()), "");
    assert_eq!(field_or_error(&d, "nosuchfield"), Err(ServiceError::InvalidFieldName));
    assert_eq!(field_or_error(&d, "name"), Ok("A".to_string()));
    let mut service = RideService::new();
    service.register_rider(rider("A", "x"));
    assert_eq!(service.search_rider_by_field("nosuchfield".to_string(), "".to_string()).len(), 1);
}

#[test]
fn rating_update_leaves_other_fields() {
    let mut service = RideService::new();
    service.register_driver(driver("Kelsey", CurrentStatus::Active, "a1"));
    service.register_driver(driver("Other", CurrentStatus::Inactive, "a2"));
    service.register_driver(driver("Kelsey", CurrentStatus::Inactive, "a3"));
    let before = service.get_drivers();
    service.update_driver_rating("Kelsey".to_string(), Rating::from_hundredths(450));
    let after = service.get_drivers();
    assert_eq!(after[0].rating, Rating::from_hundredths(450));
    assert_eq!(after[2].rating, Rating::from_hundredths(450));
    assert_eq!(after[1], before[1]);
    let mut expected = before[0].clone();
    expected.rating = Rating::from_hundredths(450);
    assert_eq!(after[0], expected);
    assert_eq!(after[2].address, "a3");
    assert_eq!(after[2].currentstatus, CurrentStatus::Inactive);
}

#[test]
fn status_update_reaches_every_match() {
    let mut service = RideService::new();
    service.register_driver(driver("K", CurrentStatus::Active, "a1"));
    service.register_driver(driver("K", CurrentStatus::Active, "a2"));
    service.register_driver(driver("L", CurrentStatus::Active, "a3"));
    service.update_driver_status("K".to_string(), CurrentStatus::Inactive);
    let after = service.get_drivers();
    assert_eq!(after[0].currentstatus, CurrentStatus::Inactive);
    assert_eq!(after[1].currentstatus, CurrentStatus::Inactive);
    assert_eq!(after[2].currentstatus, CurrentStatus::Active);
}

#[test]
fn replace_without_match_appends_at_tail() {
    let mut service = RideService::new();
    service.register_driver(driver("A", CurrentStatus::Active, "a1"));
    service.update_driver("missing".to_string(), driver("N", CurrentStatus::Active, "n1"));
    let all = service.get_drivers();
    assert_eq!(all.len(), 2);
    assert_eq!(all[0].name, "A");
    assert_eq!(all[1].name, "N");
}

#[test]
fn replace_single_match_keeps_length() {
    let mut service = RideService::new();
    service.register_driver(driver("A", CurrentStatus::Active, "a1"));
    service.register_driver(driver("B", CurrentStatus::Active, "b1"));
    service.register_driver(driver("C", CurrentStatus::Active, "c1"));
    service.update_driver("a1".to_string(), driver("A2", CurrentStatus::Active, "a9"));
    let all = service.get_drivers();
    let names: Vec<String> = all.iter().map(|d| d.name.clone()).collect();
    assert_eq!(names, vec!["B", "C", "A2"]);
}

#[test]
fn replace_takes_out_only_the_first_match() {
    let mut store: RecordStore<Rider> = RecordStore::new();
    store.insert(rider("A", "same"));
    store.insert(rider("B", "same"));
    store.replace_first("address", "same", rider("N", "other"));
    let names: Vec<String> = store.list_all().iter().map(|r| r.name.clone()).collect();
    assert_eq!(names, vec!["B", "N"]);
}

#[test]
fn remove_takes_out_first_match_or_nothing() {
    let mut service = RideService::new();
    service.register_rider(rider("A", "x"));
    service.register_rider(rider("B", "x"));
    service.remove_rider("x".to_string());
    assert_eq!(service.get_riders().len(), 1);
    assert_eq!(service.get_riders()[0].name, "B");
    service.remove_rider("nowhere".to_string());
    assert_eq!(service.get_riders().len(), 1);
}

#[test]
fn remove_ride_by_id() {
    let mut service = RideService::new();
    service.register_driver(driver("D", CurrentStatus::Active, "d1"));
    service.request_ride(rider("R", "r1"), "p".to_string(), "q".to_string(), "t".to_string()).unwrap();
    let mut ride = service.get_rides()[0].clone();
    ride.rideid = "ride-1".to_string();
    service.update_ride("".to_string(), ride);
    assert_eq!(service.get_rides().len(), 1);
    assert_eq!(service.get_rides()[0].rideid, "ride-1");
    service.remove_ride("ride-1".to_string());
    assert!(service.get_rides().is_empty());
}

#[test]
fn request_ride_picks_the_active_driver() {
    let mut service = RideService::new();
    service.register_driver(driver("Idle", CurrentStatus::Inactive, "i1"));
    service.register_driver(driver("Busy", CurrentStatus::Active, "b1"));
    let r = service.request_ride(rider("A", "x"), "X".to_string(), "Y".to_string(), "t".to_string());
    assert_eq!(r, Ok(()));
    assert_eq!(service.get_rides()[0].driver.name, "Busy");
}

#[test]
fn request_ride_without_active_driver_is_refused() {
    let mut service = RideService::new();
    service.register_driver(driver("Idle", CurrentStatus::Inactive, "i1"));
    let r = service.request_ride(rider("A", "x"), "X".to_string(), "Y".to_string(), "t".to_string());
    assert_eq!(r, Err(ServiceError::NoAvailableDriver));
    assert!(service.get_rides().is_empty());
}

#[test]
fn round_trip_driver_by_name() {
    let mut service = RideService::new();
    let inserted = Driver {
        name: "Kelsey".to_string(),
        contact: "1234567890".to_string(),
        rating: Rating::from_hundredths(0),
        currentstatus: CurrentStatus::Active,
        address: "addr1".to_string(),
        ..Driver::default()
    };
    service.register_driver(inserted.clone());
    let found = service.search_driver_by_name("Kelsey".to_string()).unwrap();
    assert_eq!(found, inserted);
}

#[test]
fn request_ride_scenario_defaults() {
    let mut service = RideService::new();
    let a = Rider { name: "A".to_string(), ..Rider::default() };
    service.register_rider(a.clone());
    let b = Driver { name: "B".to_string(), currentstatus: CurrentStatus::Active, ..Driver::default() };
    service.register_driver(b);
    service.request_ride(a, "X".to_string(), "Y".to_string(), "t".to_string()).unwrap();
    let ride = &service.get_rides()[0];
    assert_eq!(ride.rider.name, "A");
    assert_eq!(ride.driver.name, "B");
    assert_eq!(ride.status, RideStatus::Active);
    assert_eq!(ride.rideid, "");
    assert_eq!(ride.pickup, "X");
    assert_eq!(ride.dropoff, "Y");
    assert_eq!(ride.timestamp, "t");
    assert_eq!(ride.rating, Rating::zero());
    assert_eq!(ride.driverrating, Rating::zero());
    assert_eq!(ride.riderrating, Rating::zero());
    assert_eq!(ride.driverfeedback, "");
    assert_eq!(ride.riderfeedback, "");
    assert_eq!(ride.riderconfirmation, "");
    assert_eq!(ride.driverconfirmation, "");
}

#[test]
fn ride_snapshot_is_not_affected_by_store_edits() {
    let mut service = RideService::new();
    service.register_driver(driver("D", CurrentStatus::Active, "d1"));
    service.request_ride(rider("R", "r1"), "p".to_string(), "q".to_string(), "t".to_string()).unwrap();
    service.update_driver_rating("D".to_string(), Rating::from_hundredths(300));
    assert_eq!(service.get_rides()[0].driver.rating, Rating::zero());
    service.update_driver_for_ride("".to_string(), driver("E", CurrentStatus::Active, "e1"));
    service.update_rider_for_ride("".to_string(), rider("S", "s1"));
    assert_eq!(service.get_rides()[0].driver.name, "E");
    assert_eq!(service.get_rides()[0].rider.name, "S");
}

#[test]
fn ride_fields_render() {
    let d = driver("D", CurrentStatus::Active, "d1");
    let mut ride = Ride::requested(d, rider("R", "r1"), "p".to_string(), "q".to_string(), "t".to_string());
    ride.driverrating = Rating::from_hundredths(425);
    assert_eq!(ride.get_field("driver".to_string()), "D");
    assert_eq!(ride.get_field("rider".to_string()), "R");
    assert_eq!(ride.get_field("status".to_string()), "Active");
    assert_eq!(ride.get_field("rating".to_string()), "0");
    assert_eq!(ride.get_field("driverrating".to_string()), "4.25");
    assert_eq!(ride.get_field("driveraddress".to_string()), "d1");
    assert_eq!(ride.get_field("rideraddress".to_string()), "r1");
    assert_eq!(ride.get_field("nope".to_string()), "");
    assert_eq!(ride.get_id(), "");
    assert_eq!(RideField::from_name("pickup"), Some(RideField::Pickup));
}

#[test]
fn driver_fields_render() {
    let mut d = driver("D", CurrentStatus::Active, "d1");
    d.update_rating(Rating::from_hundredths(450));
    assert_eq!(d.get_field("rating".to_string()), "4.5");
    assert_eq!(d.get_field("currentstatus".to_string()), "Active");
    assert_eq!(d.get_field("vehicleyear".to_string()), "2020");
    assert_eq!(d.get_field("vehicleplatenumber".to_string()), "ABC123");
    assert_eq!(DriverField::from_name("vehiclemake"), Some(DriverField::VehicleMake));
    assert_eq!(DriverField::from_name("Name"), None);
    assert_eq!(RiderField::from_name("email"), Some(RiderField::Email));
    assert_eq!(d.name(), "D");
    assert_eq!(d.vehiclemodel(), "Corolla");
    assert_eq!(d.rating(), Rating::from_hundredths(450));
    assert_eq!(*d.currentstatus(), CurrentStatus::Active);
}

#[test]
fn driver_update_field_by_name() {
    let mut d = driver("D", CurrentStatus::Active, "d1");
    assert_eq!(d.update_field("vehiclemake".to_string(), "Honda".to_string()), Ok(()));
    assert_eq!(d.vehiclemake, "Honda");
    assert_eq!(d.update_field("rating".to_string(), "4.5".to_string()), Ok(()));
    assert_eq!(d.rating, Rating::from_hundredths(450));
    assert_eq!(d.update_field("currentstatus".to_string(), "Inactive".to_string()), Ok(()));
    assert_eq!(d.currentstatus, CurrentStatus::Inactive);
    let before = d.clone();
    assert_eq!(
        d.update_field("rating".to_string(), "four".to_string()),
        Err(ServiceError::ParseError)
    );
    assert_eq!(
        d.update_field("currentstatus".to_string(), "Busy".to_string()),
        Err(ServiceError::ParseError)
    );
    assert_eq!(
        d.update_field("wings".to_string(), "2".to_string()),
        Err(ServiceError::InvalidFieldName)
    );
    assert_eq!(d, before);
}

#[test]
fn driver_delete_fields() {
    let mut d = driver("D", CurrentStatus::Active, "d1");
    d.update_rating(Rating::from_hundredths(100));
    assert_eq!(d.delete_field("rating".to_string()), Ok(()));
    assert_eq!(d.rating, Rating::zero());
    assert_eq!(d.delete_field("currentstatus".to_string()), Ok(()));
    assert_eq!(d.currentstatus, CurrentStatus::Inactive);
    assert_eq!(d.delete_field("wings".to_string()), Err(ServiceError::InvalidFieldName));
    d.delete_email();
    assert_eq!(d.email, "");
    d.delete_driver();
    assert_eq!(d.name, "");
    assert_eq!(d.address, "");
    assert_eq!(d.currentstatus, CurrentStatus::Inactive);
    let mut e = driver("E", CurrentStatus::Active, "e1");
    e.update_driver(driver("F", CurrentStatus::Inactive, "f1"));
    assert_eq!(e, driver("F", CurrentStatus::Inactive, "f1"));
}

#[test]
fn defaults_use_the_default_address() {
    let r = Rider::default();
    assert_eq!(r.name, "");
    assert_eq!(r.address, DEFAULT_ADDRESS);
    let d = Driver::default();
    assert_eq!(d.rating, Rating::zero());
    assert_eq!(d.currentstatus, CurrentStatus::Inactive);
    assert_eq!(d.address, DEFAULT_ADDRESS);
}

#[test]
fn rating_text_forms() {
    assert_eq!(Rating::from_hundredths(0).to_text(), "0");
    assert_eq!(Rating::from_hundredths(500).to_text(), "5");
    assert_eq!(Rating::from_hundredths(450).to_text(), "4.5");
    assert_eq!(Rating::from_hundredths(425).to_text(), "4.25");
    assert_eq!(Rating::from_hundredths(1205).to_text(), "12.05");
}

#[test]
fn rating_parse_forms() {
    assert_eq!(Rating::parse("5"), Some(Rating::from_hundredths(500)));
    assert_eq!(Rating::parse("0.0"), Some(Rating::zero()));
    assert_eq!(Rating::parse("4.5"), Some(Rating::from_hundredths(450)));
    assert_eq!(Rating::parse("4.25"), Some(Rating::from_hundredths(425)));
    assert_eq!(Rating::parse(""), None);
    assert_eq!(Rating::parse("4."), None);
    assert_eq!(Rating::parse(".5"), None);
    assert_eq!(Rating::parse("4.567"), None);
    assert_eq!(Rating::parse("abc"), None);
    assert_eq!(Rating::parse("-1"), None);
    assert_eq!(Rating::parse("184467440737095516"), Some(Rating::from_hundredths(18446744073709551600)));
    assert_eq!(Rating::parse("184467440737095516.15"), Some(Rating::from_hundredths(u64::MAX)));
    assert_eq!(Rating::parse("184467440737095516.16"), None);
    assert_eq!(Rating::parse("184467440737095517"), None);
}

#[test]
fn status_text_forms() {
    assert_eq!(CurrentStatus::Active.to_text(), "Active");
    assert_eq!(CurrentStatus::parse("Inactive"), Some(CurrentStatus::Inactive));
    assert_eq!(CurrentStatus::parse("active"), None);
    assert!(CurrentStatus::Active.is_active());
    assert_eq!(RideStatus::Cancelled.to_text(), "Cancelled");
    assert_eq!(RideStatus::parse("Completed"), Some(RideStatus::Completed));
    assert_eq!(RideStatus::parse("Done"), None);
}

#[test]
fn text_helpers() {
    assert!(text_eq("abc", "abc"));
    assert!(!text_eq("abc", "abd"));
    assert!(!text_eq("ab", "abc"));
    assert_eq!(decimal_string(0), "0");
    assert_eq!(decimal_string(1234567890), "1234567890");
    assert_eq!(decimal_string(u64::MAX), "18446744073709551615");
    assert_eq!(read_digits("x123y", 1, 4), Some(123));
    assert_eq!(read_digits("12a", 0, 3), None);
    assert_eq!(read_digits("18446744073709551616", 0, 20), None);
}

#[test]
fn directory_operations() {
    let mut service = RideService::new();
    let d = service.registerDriver(driver("D", CurrentStatus::Active, "d1"));
    assert_eq!(d.name, "D");
    let r = service.registerRider(rider("R", "r1"));
    assert_eq!(r.name, "R");
    let mut other = rider("S", "s1");
    other.role = "admin".to_string();
    service.register_rider(other);
    let riders = service.getRiders();
    assert_eq!(riders.len(), 1);
    assert_eq!(riders[0].name, "R");
    assert_eq!(RideService::getDriverInfo(d.clone()), d);
    assert_eq!(RideService::getRiderInfo(r.clone()).name, "R");
}

#[test]
fn archived_block_location() {
    let spans = vec![
        ArchiveSpan { start: 0, length: 10 },
        ArchiveSpan { start: 10, length: 5 },
        ArchiveSpan { start: 12, length: 20 },
    ];
    assert_eq!(locate_archived_block(3, &spans), Some((0, 3)));
    assert_eq!(locate_archived_block(13, &spans), Some((1, 3)));
    assert_eq!(locate_archived_block(20, &spans), Some((2, 8)));
    assert_eq!(locate_archived_block(32, &spans), None);
    assert_eq!(locate_archived_block(5, &Vec::new()), None);
}

#[test]
fn search_driver_each_field() {
    let mut service = RideService::new();
    service.register_driver(driver("Kelsey", CurrentStatus::Active, "addr1"));
    let cases = [
        ("name", "Kelsey"),
        ("contact", "1234567890"),
        ("email", "test@email.com"),
        ("role", "driver"),
        ("vehicleplatenumber", "ABC123"),
        ("vehicleseatnumber", "1"),
        ("vehiclemake", "Toyota"),
        ("vehiclemodel", "Corolla"),
        ("vehiclecolor", "Black"),
        ("vehicletype", "SUV"),
        ("vehicleyear", "2020"),
        ("rating", "0"),
        ("currentstatus", "Active"),
        ("address", "addr1"),
    ];
    for (field, value) in cases {
        let found = service.search_driver_by_field(field.to_string(), value.to_string());
        assert_eq!(found.len(), 1, "field {}", field);
        assert_eq!(found[0].name, "Kelsey");
    }
    assert!(service.search_driver_by_field("rating".to_string(), "0.0".to_string()).is_empty());
}
