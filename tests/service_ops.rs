use rideshare::driver::Driver;
use rideshare::rating::Rating;
use rideshare::ride::Ride;
use rideshare::rider::Rider;
use rideshare::service::RideService;
use rideshare::status::{CurrentStatus, RideStatus};

const ADDRESS: &str = "cjr37-nxx7a-keiqq-efh5n-v47nd-ceddb-2c6hg-aseen-h66ih-so563-hae";

fn kelsey_driver() -> Driver {
    Driver {
        name: "Kelsey".to_string(),
        contact: "1234567890".to_string(),
        email: "test@email.com".to_string(),
        role: "driver".to_string(),
        vehicleplatenumber: "ABC123".to_string(),
        vehicleseatnumber: "1".to_string(),
        vehiclemake: "Toyota".to_string(),
        vehiclemodel: "Corolla".to_string(),
        vehiclecolor: "Black".to_string(),
        vehicletype: "SUV".to_string(),
        vehicleyear: "2020".to_string(),
        rating: Rating::from_hundredths(0),
        currentstatus: CurrentStatus::Active,
        address: ADDRESS.to_string(),
    }
}

fn kelsey_rider() -> Rider {
    Rider {
        name: "Kelsey".to_string(),
        contact: "1234567890".to_string(),
        email: "test@email.com".to_string(),
        role: "rider".to_string(),
        address: ADDRESS.to_string(),
    }
}

fn kelsey_ride(driver: Driver, rider: Rider) -> Ride {
    Ride {
        rideid: ADDRESS.to_string(),
        driver,
        rider,
        pickup: "new york".to_string(),
        dropoff: "san francisco".to_string(),
        status: RideStatus::Active,
        timestamp: "2020-01-01T00:00:00.000Z".to_string(),
        rating: Rating::from_hundredths(0),
        driverrating: Rating::from_hundredths(0),
        riderrating: Rating::from_hundredths(0),
        driverfeedback: "".to_string(),
        riderfeedback: "".to_string(),
        riderconfirmation: "".to_string(),
        driverconfirmation: "".to_string(),
    }
}

#[test]
fn test_register_rider() {
    let mut service = RideService::new();
    service.register_rider(kelsey_rider());
    assert_eq!(service.get_riders().len(), 1);
    assert_eq!(service.get_riders()[0].name, "Kelsey");
}

#[test]
fn test_register_driver() {
    let mut service = RideService::new();
    service.register_driver(kelsey_driver());
    assert_eq!(service.get_drivers().len(), 1);
    assert_eq!(service.get_drivers()[0].name, "Kelsey");
}

#[test]
fn test_update_driver_rating() {
    let mut service = RideService::new();
    service.register_driver(kelsey_driver());
    assert_eq!(service.get_drivers().len(), 1);
    assert_eq!(service.get_drivers()[0].name, "Kelsey");
    service.update_driver_rating("Kelsey".to_string(), Rating::from_hundredths(500));
    assert_eq!(service.get_drivers()[0].rating, Rating::from_hundredths(500));
}

#[test]
fn test_update_driver_status() {
    let mut service = RideService::new();
    service.register_driver(kelsey_driver());
    assert_eq!(service.get_drivers().len(), 1);
    assert_eq!(service.get_drivers()[0].name, "Kelsey");
    service.update_driver_status("Kelsey".to_string(), CurrentStatus::Inactive);
    assert_eq!(service.get_drivers()[0].currentstatus, CurrentStatus::Inactive);
    service.update_driver_status("Kelsey".to_string(), CurrentStatus::Active);
    assert_eq!(service.get_drivers()[0].currentstatus, CurrentStatus::Active);
}

#[test]
fn test_search_driver_by_address() {
    let mut service = RideService::new();
    service.register_driver(kelsey_driver());
    assert_eq!(service.get_drivers().len(), 1);
    assert_eq!(service.get_drivers()[0].name, "Kelsey");
    assert_eq!(
        service.search_driver_by_address(ADDRESS.to_string()).unwrap().name,
        "Kelsey"
    );
}

#[test]
fn test_search_rider_by_address() {
    let mut service = RideService::new();
    service.register_rider(kelsey_rider());
    assert_eq!(service.get_riders().len(), 1);
    assert_eq!(service.get_riders()[0].name, "Kelsey");
    assert_eq!(
        service.search_rider_by_address(ADDRESS.to_string()).unwrap().name,
        "Kelsey"
    );
}

#[test]
fn test_search_rider_by_principal_id() {
    let mut service = RideService::new();
    service.register_rider(kelsey_rider());
    assert_eq!(service.get_riders().len(), 1);
    assert_eq!(service.get_riders()[0].name, "Kelsey");
    assert_eq!(
        service.search_rider_by_principal_id(ADDRESS.to_string()).unwrap().name,
        "Kelsey"
    );
}

#[test]
fn test_search_driver_by_contact() {
    let mut service = RideService::new();
    service.register_driver(kelsey_driver());
    assert_eq!(service.get_drivers().len(), 1);
    assert_eq!(service.get_drivers()[0].name, "Kelsey");
    assert_eq!(
        service.search_driver_by_contact("1234567890".to_string()).unwrap().name,
        "Kelsey"
    );
}

#[test]
fn test_create_ride() {
    let mut service = RideService::new();
    let driver = kelsey_driver();
    service.register_driver(driver.clone());
    let rider = kelsey_rider();
    service.register_rider(rider.clone());
    service.register_ride(kelsey_ride(driver, rider));
    let rides = service.get_rides();
    assert_eq!(rides.len(), 1);
}

#[test]
fn test_search_rider_by_field() {
    let mut service = RideService::new();
    let rider = Rider::new(
        "Kelsey".to_string(),
        "1234567890".to_string(),
        "test@email.com".to_string(),
        "rider".to_string(),
        "123 Main St".to_string(),
    );
    service.riders.insert(rider.clone());
    assert_eq!(service.get_riders().len(), 1);
    assert_eq!(service.get_riders()[0].name, "Kelsey");
    assert_eq!(
        service.search_rider_by_field("name".to_string(), "Kelsey".to_string())[0].name,
        "Kelsey"
    );
    assert_eq!(
        service.search_rider_by_field("contact".to_string(), "1234567890".to_string())[0].name,
        "Kelsey"
    );
}

#[test]
fn test_search_driver_by_field() {
    let mut service = RideService::new();
    service.register_driver(kelsey_driver());
    assert_eq!(
        service.search_driver_by_field("name".to_string(), "Kelsey".to_string())[0].name,
        "Kelsey"
    );
}

#[test]
fn test_search_driver_by_name() {
    let mut service = RideService::new();
    service.register_driver(kelsey_driver());
    let driver_found = service.search_driver_by_name("Kelsey".to_string());
    assert_eq!(driver_found.unwrap().name, "Kelsey");
}

#[test]
fn test_search_ride_by_id() {
    let mut service = RideService::new();
    let driver = kelsey_driver();
    service.register_driver(driver.clone());
    let rider = kelsey_rider();
    service.register_rider(rider.clone());
    let ride = kelsey_ride(driver, rider);
    service.register_ride(ride.clone());
    let search_ride = service.search_ride_by_id(ride.clone().rideid);
    assert_eq!(search_ride.unwrap().rideid, ride.clone().rideid);
}

#[test]
fn test_request_ride() {
    let mut service = RideService::new();
    let driver = kelsey_driver();
    service.register_driver(driver.clone());
    let rider = kelsey_rider();
    service.register_rider(rider.clone());
    service
        .request_ride(
            rider.clone(),
            "new york".to_string(),
            "san francisco".to_string(),
            "2020-01-01T00:00:00.000Z".to_string(),
        )
        .unwrap();
    let rides = service.get_rides();
    let ride = rides.first().unwrap();
    assert_eq!(ride.rider.name, rider.name);
    assert_eq!(ride.driver.name, driver.name);
}

#[test]
fn test_search_ride_by_field() {
    let mut service = RideService::new();
    let driver = kelsey_driver();
    service.register_driver(driver.clone());
    let rider = kelsey_rider();
    service.register_rider(rider.clone());
    service
        .request_ride(
            rider.clone(),
            "new york".to_string(),
            "san francisco".to_string(),
            "2020-01-01T00:00:00.000Z".to_string(),
        )
        .unwrap();
    let rides = service.get_rides();
    let ride = rides.first().unwrap();
    assert_eq!(ride.rider.name, rider.name);
    assert_eq!(ride.driver.name, driver.name);
}

#[test]
fn test_update_driver_for_ride() {
    let mut service = RideService::new();
    let mut driver = kelsey_driver();
    driver.email = "test@gmail.com".to_string();
    service.register_driver(driver.clone());
    let rider = kelsey_rider();
    service.register_rider(rider.clone());
    let ride = kelsey_ride(driver.clone(), rider.clone());
    service.register_ride(ride.clone());
    let mut new_driver = driver.clone();
    new_driver.update_vehiclemake("Honda".to_string());
    service.update_driver(driver.address.clone(), new_driver.clone());
    let mut new_ride = ride.clone();
    new_ride.driver = new_driver.clone();
    service.update_ride(ride.rideid.clone(), new_ride);
    let rides = service.get_rides();
    let check_ride = rides.first().unwrap();
    assert_eq!(check_ride.rider.name, rider.name);
    assert_eq!(check_ride.driver.vehiclemake, "Honda".to_string());
}

#[test]
#[allow(non_snake_case)]
fn test_registerRider() {
    let mut service = RideService::new();
    let rider = Rider {
        name: "Kelsey".to_string(),
        contact: "1234567890".to_string(),
        email: "test@email.com".to_string(),
        role: "rider".to_string(),
        address: ADDRESS.to_string(),
    };
    service.register_rider(rider);
    assert_eq!(service.get_riders().len(), 1);
}
