//! Drivers: identity and vehicle fields, a rating and a status.
use crate::rating::{parsed_rating, rating_text, Rating};
use crate::record::{field_matches, render_field, rendered, Record, ServiceError};
use crate::rider::DEFAULT_ADDRESS;
use crate::status::{current_status_named, current_status_text, CurrentStatus};
use crate::text::text_eq;
use vstd::prelude::*;
use vstd::string::*;

verus! {

#[derive(Clone, Debug)]
pub struct Driver {
    pub name: String,
    pub contact: String,
    pub email: String,
    pub role: String,
    pub vehicleplatenumber: String,
    pub vehicleseatnumber: String,
    pub vehiclemake: String,
    pub vehiclemodel: String,
    pub vehiclecolor: String,
    pub vehicletype: String,
    pub vehicleyear: String,
    pub rating: Rating,
    pub currentstatus: CurrentStatus,
    pub address: String,
}

/// A driver as plain values.
pub struct DriverView {
    pub name: Seq<char>,
    pub contact: Seq<char>,
    pub email: Seq<char>,
    pub role: Seq<char>,
    pub vehicleplatenumber: Seq<char>,
    pub vehicleseatnumber: Seq<char>,
    pub vehiclemake: Seq<char>,
    pub vehiclemodel: Seq<char>,
    pub vehiclecolor: Seq<char>,
    pub vehicletype: Seq<char>,
    pub vehicleyear: Seq<char>,
    pub rating: Rating,
    pub currentstatus: CurrentStatus,
    pub address: Seq<char>,
}

impl View for Driver {
    type V = DriverView;

    open spec fn view(&self) -> DriverView {
        DriverView {
            name: self.name@,
            contact: self.contact@,
            email: self.email@,
            role: self.role@,
            vehicleplatenumber: self.vehicleplatenumber@,
            vehicleseatnumber: self.vehicleseatnumber@,
            vehiclemake: self.vehiclemake@,
            vehiclemodel: self.vehiclemodel@,
            vehiclecolor: self.vehiclecolor@,
            vehicletype: self.vehicletype@,
            vehicleyear: self.vehicleyear@,
            rating: self.rating,
            currentstatus: self.currentstatus,
            address: self.address@,
        }
    }
}

/// The fields of a driver, by name.
#[derive(Clone, Copy, Debug, PartialEq, Eq, Structural)]
pub enum DriverField {
    Name,
    Contact,
    Email,
    Role,
    VehiclePlateNumber,
    VehicleSeatNumber,
    VehicleMake,
    VehicleModel,
    VehicleColor,
    VehicleType,
    VehicleYear,
    Rating,
    Status,
    Address,
}

pub open spec fn driver_field_named(name: Seq<char>) -> Option<DriverField> {
    if name == "name"@ {
        Some(DriverField::Name)
    } else if name == "contact"@ {
        Some(DriverField::Contact)
    } else if name == "email"@ {
        Some(DriverField::Email)
    } else if name == "role"@ {
        Some(DriverField::Role)
    } else if name == "vehicleplatenumber"@ {
        Some(DriverField::VehiclePlateNumber)
    } else if name == "vehicleseatnumber"@ {
        Some(DriverField::VehicleSeatNumber)
    } else if name == "vehiclemake"@ {
        Some(DriverField::VehicleMake)
    } else if name == "vehiclemodel"@ {
        Some(DriverField::VehicleModel)
    } else if name == "vehiclecolor"@ {
        Some(DriverField::VehicleColor)
    } else if name == "vehicletype"@ {
        Some(DriverField::VehicleType)
    } else if name == "vehicleyear"@ {
        Some(DriverField::VehicleYear)
    } else if name == "rating"@ {
        Some(DriverField::Rating)
    } else if name == "currentstatus"@ {
        Some(DriverField::Status)
    } else if name == "address"@ {
        Some(DriverField::Address)
    } else {
        None
    }
}

impl DriverView {
    /// The text a field renders to.
    pub open spec fn text_of(self, f: DriverField) -> Seq<char> {
        match f {
            DriverField::Name => self.name,
            DriverField::Contact => self.contact,
            DriverField::Email => self.email,
            DriverField::Role => self.role,
            DriverField::VehiclePlateNumber => self.vehicleplatenumber,
            DriverField::VehicleSeatNumber => self.vehicleseatnumber,
            DriverField::VehicleMake => self.vehiclemake,
            DriverField::VehicleModel => self.vehiclemodel,
            DriverField::VehicleColor => self.vehiclecolor,
            DriverField::VehicleType => self.vehicletype,
            DriverField::VehicleYear => self.vehicleyear,
            DriverField::Rating => rating_text(self.rating.hundredths as nat),
            DriverField::Status => current_status_text(self.currentstatus),
            DriverField::Address => self.address,
        }
    }

    /// The driver with field `f` set from `value`; `None` when `value`
    /// does not read as the field's type.
    pub open spec fn with_text(self, f: DriverField, value: Seq<char>) -> Option<DriverView> {
        match f {
            DriverField::Name => Some(DriverView { name: value, ..self }),
            DriverField::Contact => Some(DriverView { contact: value, ..self }),
            DriverField::Email => Some(DriverView { email: value, ..self }),
            DriverField::Role => Some(DriverView { role: value, ..self }),
            DriverField::VehiclePlateNumber => Some(DriverView { vehicleplatenumber: value, ..self }),
            DriverField::VehicleSeatNumber => Some(DriverView { vehicleseatnumber: value, ..self }),
            DriverField::VehicleMake => Some(DriverView { vehiclemake: value, ..self }),
            DriverField::VehicleModel => Some(DriverView { vehiclemodel: value, ..self }),
            DriverField::VehicleColor => Some(DriverView { vehiclecolor: value, ..self }),
            DriverField::VehicleType => Some(DriverView { vehicletype: value, ..self }),
            DriverField::VehicleYear => Some(DriverView { vehicleyear: value, ..self }),
            DriverField::Rating => match parsed_rating(value) {
                Some(r) => Some(DriverView { rating: r, ..self }),
                None => None,
            },
            DriverField::Status => match current_status_named(value) {
                Some(s) => Some(DriverView { currentstatus: s, ..self }),
                None => None,
            },
            DriverField::Address => Some(DriverView { address: value, ..self }),
        }
    }

    /// The driver with field `f` reset to its zero value: empty text, a
    /// zero rating, or `Inactive`.
    pub open spec fn cleared(self, f: DriverField) -> DriverView {
        match f {
            DriverField::Name => DriverView { name: Seq::empty(), ..self },
            DriverField::Contact => DriverView { contact: Seq::empty(), ..self },
            DriverField::Email => DriverView { email: Seq::empty(), ..self },
            DriverField::Role => DriverView { role: Seq::empty(), ..self },
            DriverField::VehiclePlateNumber => DriverView { vehicleplatenumber: Seq::empty(), ..self },
            DriverField::VehicleSeatNumber => DriverView { vehicleseatnumber: Seq::empty(), ..self },
            DriverField::VehicleMake => DriverView { vehiclemake: Seq::empty(), ..self },
            DriverField::VehicleModel => DriverView { vehiclemodel: Seq::empty(), ..self },
            DriverField::VehicleColor => DriverView { vehiclecolor: Seq::empty(), ..self },
            DriverField::VehicleType => DriverView { vehicletype: Seq::empty(), ..self },
            DriverField::VehicleYear => DriverView { vehicleyear: Seq::empty(), ..self },
            DriverField::Rating => DriverView { rating: Rating { hundredths: 0 }, ..self },
            DriverField::Status => DriverView { currentstatus: CurrentStatus::Inactive, ..self },
            DriverField::Address => DriverView { address: Seq::empty(), ..self },
        }
    }
}

/// A driver with every field at its zero value.
pub open spec fn blank_driver() -> DriverView {
    DriverView {
        name: Seq::empty(),
        contact: Seq::empty(),
        email: Seq::empty(),
        role: Seq::empty(),
        vehicleplatenumber: Seq::empty(),
        vehicleseatnumber: Seq::empty(),
        vehiclemake: Seq::empty(),
        vehiclemodel: Seq::empty(),
        vehiclecolor: Seq::empty(),
        vehicletype: Seq::empty(),
        vehicleyear: Seq::empty(),
        rating: Rating { hundredths: 0 },
        currentstatus: CurrentStatus::Inactive,
        address: Seq::empty(),
    }
}

/// A driver's `currentstatus` field renders as `Active` exactly when the
/// driver is active.
pub proof fn lemma_active_status_field(v: DriverView)
    ensures
        field_matches::<Driver>(v, "currentstatus"@, "Active"@) <==> v.currentstatus
            == CurrentStatus::Active,
{
    reveal_strlit("name");
    reveal_strlit("contact");
    reveal_strlit("email");
    reveal_strlit("role");
    reveal_strlit("vehicleplatenumber");
    reveal_strlit("vehicleseatnumber");
    reveal_strlit("vehiclemake");
    reveal_strlit("vehiclemodel");
    reveal_strlit("vehiclecolor");
    reveal_strlit("vehicletype");
    reveal_strlit("vehicleyear");
    reveal_strlit("rating");
    reveal_strlit("currentstatus");
    reveal_strlit("Active");
    reveal_strlit("Inactive");
    assert("currentstatus"@.len() == 13);
    assert(driver_field_named("currentstatus"@) == Some(DriverField::Status));
    assert("Active"@ != "Inactive"@) by {
        assert("Active"@.len() != "Inactive"@.len());
    }
}

/// A driver's `name` field renders as the name itself.
pub proof fn lemma_name_field(v: DriverView)
    ensures
        rendered::<Driver>(v, "name"@) == v.name,
{
}

impl DriverField {
    /// The field with this name, if there is one.
    pub fn from_name(name: &str) -> (r: Option<DriverField>)
        ensures
            r == driver_field_named(name@),
    {
        if text_eq(name, "name") {
            Some(DriverField::Name)
        } else if text_eq(name, "contact") {
            Some(DriverField::Contact)
        } else if text_eq(name, "email") {
            Some(DriverField::Email)
        } else if text_eq(name, "role") {
            Some(DriverField::Role)
        } else if text_eq(name, "vehicleplatenumber") {
            Some(DriverField::VehiclePlateNumber)
        } else if text_eq(name, "vehicleseatnumber") {
            Some(DriverField::VehicleSeatNumber)
        } else if text_eq(name, "vehiclemake") {
            Some(DriverField::VehicleMake)
        } else if text_eq(name, "vehiclemodel") {
            Some(DriverField::VehicleModel)
        } else if text_eq(name, "vehiclecolor") {
            Some(DriverField::VehicleColor)
        } else if text_eq(name, "vehicletype") {
            Some(DriverField::VehicleType)
        } else if text_eq(name, "vehicleyear") {
            Some(DriverField::VehicleYear)
        } else if text_eq(name, "rating") {
            Some(DriverField::Rating)
        } else if text_eq(name, "currentstatus") {
            Some(DriverField::Status)
        } else if text_eq(name, "address") {
            Some(DriverField::Address)
        } else {
            None
        }
    }
}

impl Record for Driver {
    open spec fn field_text(v: DriverView, field: Seq<char>) -> Option<Seq<char>> {
        match driver_field_named(field) {
            Some(f) => Some(v.text_of(f)),
            None => None,
        }
    }

    fn find_field(&self, field: &str) -> (r: Option<String>) {
        match DriverField::from_name(field) {
            Some(f) => Some(self.value_of(f)),
            None => None,
        }
    }

    fn snapshot(&self) -> (r: Driver) {
        Driver {
            name: self.name.clone(),
            contact: self.contact.clone(),
            email: self.email.clone(),
            role: self.role.clone(),
            vehicleplatenumber: self.vehicleplatenumber.clone(),
            vehicleseatnumber: self.vehicleseatnumber.clone(),
            vehiclemake: self.vehiclemake.clone(),
            vehiclemodel: self.vehiclemodel.clone(),
            vehiclecolor: self.vehiclecolor.clone(),
            vehicletype: self.vehicletype.clone(),
            vehicleyear: self.vehicleyear.clone(),
            rating: self.rating,
            currentstatus: self.currentstatus,
            address: self.address.clone(),
        }
    }
}

impl Driver {
    /// A driver with the given fields.
    pub fn new(
        name: String,
        contact: String,
        email: String,
        role: String,
        vehicleplatenumber: String,
        vehicleseatnumber: String,
        vehiclemake: String,
        vehiclemodel: String,
        vehiclecolor: String,
        vehicletype: String,
        vehicleyear: String,
        rating: Rating,
        currentstatus: CurrentStatus,
        address: String,
    ) -> (r: Driver)
        ensures
            r@ == (DriverView {
                name: name@,
                contact: contact@,
                email: email@,
                role: role@,
                vehicleplatenumber: vehicleplatenumber@,
                vehicleseatnumber: vehicleseatnumber@,
                vehiclemake: vehiclemake@,
                vehiclemodel: vehiclemodel@,
                vehiclecolor: vehiclecolor@,
                vehicletype: vehicletype@,
                vehicleyear: vehicleyear@,
                rating: rating,
                currentstatus: currentstatus,
                address: address@,
            }),
    {
        Driver {
            name,
            contact,
            email,
            role,
            vehicleplatenumber,
            vehicleseatnumber,
            vehiclemake,
            vehiclemodel,
            vehiclecolor,
            vehicletype,
            vehicleyear,
            rating,
            currentstatus,
            address,
        }
    }

    /// The value of one field as text.
    pub fn value_of(&self, f: DriverField) -> (r: String)
        ensures
            r@ == self@.text_of(f),
    {
        match f {
            DriverField::Name => self.name.clone(),
            DriverField::Contact => self.contact.clone(),
            DriverField::Email => self.email.clone(),
            DriverField::Role => self.role.clone(),
            DriverField::VehiclePlateNumber => self.vehicleplatenumber.clone(),
            DriverField::VehicleSeatNumber => self.vehicleseatnumber.clone(),
            DriverField::VehicleMake => self.vehiclemake.clone(),
            DriverField::VehicleModel => self.vehiclemodel.clone(),
            DriverField::VehicleColor => self.vehiclecolor.clone(),
            DriverField::VehicleType => self.vehicletype.clone(),
            DriverField::VehicleYear => self.vehicleyear.clone(),
            DriverField::Rating => self.rating.to_text(),
            DriverField::Status => self.currentstatus.to_text(),
            DriverField::Address => self.address.clone(),
        }
    }

    /// The field named `field` as text; empty for an unknown name.
    pub fn get_field(&self, field: String) -> (r: String)
        ensures
            r@ == rendered::<Driver>(self@, field@),
    {
        render_field(self, field.as_str())
    }

    pub fn get_name(&self) -> (r: String)
        ensures
            r@ == self.name@,
    {
        self.name.clone()
    }

    pub fn name(&self) -> (r: &str)
        ensures
            r@ == self.name@,
    {
        self.name.as_str()
    }

    pub fn contact(&self) -> (r: &str)
        ensures
            r@ == self.contact@,
    {
        self.contact.as_str()
    }

    pub fn email(&self) -> (r: &str)
        ensures
            r@ == self.email@,
    {
        self.email.as_str()
    }

    pub fn role(&self) -> (r: &str)
        ensures
            r@ == self.role@,
    {
        self.role.as_str()
    }

    pub fn vehicleplatenumber(&self) -> (r: &str)
        ensures
            r@ == self.vehicleplatenumber@,
    {
        self.vehicleplatenumber.as_str()
    }

    pub fn vehicleseatnumber(&self) -> (r: &str)
        ensures
            r@ == self.vehicleseatnumber@,
    {
        self.vehicleseatnumber.as_str()
    }

    pub fn vehiclemake(&self) -> (r: &str)
        ensures
            r@ == self.vehiclemake@,
    {
        self.vehiclemake.as_str()
    }

    pub fn vehiclemodel(&self) -> (r: &str)
        ensures
            r@ == self.vehiclemodel@,
    {
        self.vehiclemodel.as_str()
    }

    pub fn vehiclecolor(&self) -> (r: &str)
        ensures
            r@ == self.vehiclecolor@,
    {
        self.vehiclecolor.as_str()
    }

    pub fn vehicletype(&self) -> (r: &str)
        ensures
            r@ == self.vehicletype@,
    {
        self.vehicletype.as_str()
    }

    pub fn vehicleyear(&self) -> (r: &str)
        ensures
            r@ == self.vehicleyear@,
    {
        self.vehicleyear.as_str()
    }

    pub fn address(&self) -> (r: &str)
        ensures
            r@ == self.address@,
    {
        self.address.as_str()
    }

    pub fn rating(&self) -> (r: Rating)
        ensures
            r == self.rating,
    {
        self.rating
    }

    pub fn currentstatus(&self) -> (r: &CurrentStatus)
        ensures
            *r == self.currentstatus,
    {
        &self.currentstatus
    }

    pub fn update_name(&mut self, name: String)
        ensures
            final(self)@ == (DriverView { name: name@, ..old(self)@ }),
    {
        self.name = name;
    }

    pub fn update_contact(&mut self, contact: String)
        ensures
            final(self)@ == (DriverView { contact: contact@, ..old(self)@ }),
    {
        self.contact = contact;
    }

    pub fn update_email(&mut self, email: String)
        ensures
            final(self)@ == (DriverView { email: email@, ..old(self)@ }),
    {
        self.email = email;
    }

    pub fn update_role(&mut self, role: String)
        ensures
            final(self)@ == (DriverView { role: role@, ..old(self)@ }),
    {
        self.role = role;
    }

    pub fn update_vehicleplatenumber(&mut self, vehicleplatenumber: String)
        ensures
            final(self)@ == (DriverView { vehicleplatenumber: vehicleplatenumber@, ..old(self)@ }),
    {
        self.vehicleplatenumber = vehicleplatenumber;
    }

    pub fn update_vehicleseatnumber(&mut self, vehicleseatnumber: String)
        ensures
            final(self)@ == (DriverView { vehicleseatnumber: vehicleseatnumber@, ..old(self)@ }),
    {
        self.vehicleseatnumber = vehicleseatnumber;
    }

    pub fn update_vehiclemake(&mut self, vehiclemake: String)
        ensures
            final(self)@ == (DriverView { vehiclemake: vehiclemake@, ..old(self)@ }),
    {
        self.vehiclemake = vehiclemake;
    }

    pub fn update_vehiclemodel(&mut self, vehiclemodel: String)
        ensures
            final(self)@ == (DriverView { vehiclemodel: vehiclemodel@, ..old(self)@ }),
    {
        self.vehiclemodel = vehiclemodel;
    }

    pub fn update_vehiclecolor(&mut self, vehiclecolor: String)
        ensures
            final(self)@ == (DriverView { vehiclecolor: vehiclecolor@, ..old(self)@ }),
    {
        self.vehiclecolor = vehiclecolor;
    }

    pub fn update_vehicletype(&mut self, vehicletype: String)
        ensures
            final(self)@ == (DriverView { vehicletype: vehicletype@, ..old(self)@ }),
    {
        self.vehicletype = vehicletype;
    }

    pub fn update_vehicleyear(&mut self, vehicleyear: String)
        ensures
            final(self)@ == (DriverView { vehicleyear: vehicleyear@, ..old(self)@ }),
    {
        self.vehicleyear = vehicleyear;
    }

    pub fn update_rating(&mut self, rating: Rating)
        ensures
            final(self)@ == (DriverView { rating: rating, ..old(self)@ }),
    {
        self.rating = rating;
    }

    pub fn update_currentstatus(&mut self, currentstatus: CurrentStatus)
        ensures
            final(self)@ == (DriverView { currentstatus: currentstatus, ..old(self)@ }),
    {
        self.currentstatus = currentstatus;
    }

    pub fn update_address(&mut self, address: String)
        ensures
            final(self)@ == (DriverView { address: address@, ..old(self)@ }),
    {
        self.address = address;
    }

    /// Sets the field named `field` from its text. An unknown name gives
    /// `InvalidFieldName`; a rating or status that does not read gives
    /// `ParseError`; either way the driver is left as it was.
    pub fn update_field(&mut self, field: String, value: String) -> (r: Result<(), ServiceError>)
        ensures
            match driver_field_named(field@) {
                None => r == Err::<(), ServiceError>(ServiceError::InvalidFieldName) && final(self)@ == old(self)@,
                Some(f) => match old(self)@.with_text(f, value@) {
                    Some(v) => r is Ok && final(self)@ == v,
                    None => r == Err::<(), ServiceError>(ServiceError::ParseError) && final(self)@ == old(self)@,
                },
            },
    {
        let f = match DriverField::from_name(field.as_str()) {
            Some(f) => f,
            None => {
                return Err(ServiceError::InvalidFieldName);
            },
        };
        match f {
            DriverField::Name => self.name = value,
            DriverField::Contact => self.contact = value,
            DriverField::Email => self.email = value,
            DriverField::Role => self.role = value,
            DriverField::VehiclePlateNumber => self.vehicleplatenumber = value,
            DriverField::VehicleSeatNumber => self.vehicleseatnumber = value,
            DriverField::VehicleMake => self.vehiclemake = value,
            DriverField::VehicleModel => self.vehiclemodel = value,
            DriverField::VehicleColor => self.vehiclecolor = value,
            DriverField::VehicleType => self.vehicletype = value,
            DriverField::VehicleYear => self.vehicleyear = value,
            DriverField::Rating => match Rating::parse(value.as_str()) {
                Some(r) => self.rating = r,
                None => {
                    return Err(ServiceError::ParseError);
                },
            },
            DriverField::Status => match CurrentStatus::parse(value.as_str()) {
                Some(s) => self.currentstatus = s,
                None => {
                    return Err(ServiceError::ParseError);
                },
            },
            DriverField::Address => self.address = value,
        }
        Ok(())
    }

    /// Replaces every field with those of `driver`.
    pub fn update_driver(&mut self, driver: Driver)
        ensures
            final(self)@ == driver@,
    {
        self.name = driver.name;
        self.contact = driver.contact;
        self.email = driver.email;
        self.role = driver.role;
        self.vehicleplatenumber = driver.vehicleplatenumber;
        self.vehicleseatnumber = driver.vehicleseatnumber;
        self.vehiclemake = driver.vehiclemake;
        self.vehiclemodel = driver.vehiclemodel;
        self.vehiclecolor = driver.vehiclecolor;
        self.vehicletype = driver.vehicletype;
        self.vehicleyear = driver.vehicleyear;
        self.rating = driver.rating;
        self.currentstatus = driver.currentstatus;
        self.address = driver.address;
    }

    pub fn delete_name(&mut self)
        ensures
            final(self)@ == (DriverView { name: Seq::empty(), ..old(self)@ }),
    {
        self.name = String::new();
    }

    pub fn delete_contact(&mut self)
        ensures
            final(self)@ == (DriverView { contact: Seq::empty(), ..old(self)@ }),
    {
        self.contact = String::new();
    }

    pub fn delete_email(&mut self)
        ensures
            final(self)@ == (DriverView { email: Seq::empty(), ..old(self)@ }),
    {
        self.email = String::new();
    }

    pub fn delete_role(&mut self)
        ensures
            final(self)@ == (DriverView { role: Seq::empty(), ..old(self)@ }),
    {
        self.role = String::new();
    }

    pub fn delete_vehicleplatenumber(&mut self)
        ensures
            final(self)@ == (DriverView { vehicleplatenumber: Seq::empty(), ..old(self)@ }),
    {
        self.vehicleplatenumber = String::new();
    }

    pub fn delete_vehicleseatnumber(&mut self)
        ensures
            final(self)@ == (DriverView { vehicleseatnumber: Seq::empty(), ..old(self)@ }),
    {
        self.vehicleseatnumber = String::new();
    }

    pub fn delete_vehiclemake(&mut self)
        ensures
            final(self)@ == (DriverView { vehiclemake: Seq::empty(), ..old(self)@ }),
    {
        self.vehiclemake = String::new();
    }

    pub fn delete_vehiclemodel(&mut self)
        ensures
            final(self)@ == (DriverView { vehiclemodel: Seq::empty(), ..old(self)@ }),
    {
        self.vehiclemodel = String::new();
    }

    pub fn delete_vehiclecolor(&mut self)
        ensures
            final(self)@ == (DriverView { vehiclecolor: Seq::empty(), ..old(self)@ }),
    {
        self.vehiclecolor = String::new();
    }

    pub fn delete_vehicletype(&mut self)
        ensures
            final(self)@ == (DriverView { vehicletype: Seq::empty(), ..old(self)@ }),
    {
        self.vehicletype = String::new();
    }

    pub fn delete_vehicleyear(&mut self)
        ensures
            final(self)@ == (DriverView { vehicleyear: Seq::empty(), ..old(self)@ }),
    {
        self.vehicleyear = String::new();
    }

    pub fn delete_address(&mut self)
        ensures
            final(self)@ == (DriverView { address: Seq::empty(), ..old(self)@ }),
    {
        self.address = String::new();
    }

    pub fn delete_rating(&mut self)
        ensures
            final(self)@ == (DriverView { rating: Rating { hundredths: 0 }, ..old(self)@ }),
    {
        self.rating = Rating::zero();
    }

    /// Resets the field named `field` to its zero value; an unknown name
    /// gives `InvalidFieldName` and leaves the driver as it was.
    pub fn delete_field(&mut self, field: String) -> (r: Result<(), ServiceError>)
        ensures
            match driver_field_named(field@) {
                None => r == Err::<(), ServiceError>(ServiceError::InvalidFieldName) && final(self)@ == old(self)@,
                Some(f) => r is Ok && final(self)@ == old(self)@.cleared(f),
            },
    {
        let f = match DriverField::from_name(field.as_str()) {
            Some(f) => f,
            None => {
                return Err(ServiceError::InvalidFieldName);
            },
        };
        match f {
            DriverField::Name => self.name = String::new(),
            DriverField::Contact => self.contact = String::new(),
            DriverField::Email => self.email = String::new(),
            DriverField::Role => self.role = String::new(),
            DriverField::VehiclePlateNumber => self.vehicleplatenumber = String::new(),
            DriverField::VehicleSeatNumber => self.vehicleseatnumber = String::new(),
            DriverField::VehicleMake => self.vehiclemake = String::new(),
            DriverField::VehicleModel => self.vehiclemodel = String::new(),
            DriverField::VehicleColor => self.vehiclecolor = String::new(),
            DriverField::VehicleType => self.vehicletype = String::new(),
            DriverField::VehicleYear => self.vehicleyear = String::new(),
            DriverField::Rating => self.rating = Rating::zero(),
            DriverField::Status => self.currentstatus = CurrentStatus::Inactive,
            DriverField::Address => self.address = String::new(),
        }
        Ok(())
    }

    /// Resets every field to its zero value.
    pub fn delete_driver(&mut self)
        ensures
            final(self)@ == blank_driver(),
    {
        self.name = String::new();
        self.contact = String::new();
        self.email = String::new();
        self.role = String::new();
        self.vehicleplatenumber = String::new();
        self.vehicleseatnumber = String::new();
        self.vehiclemake = String::new();
        self.vehiclemodel = String::new();
        self.vehiclecolor = String::new();
        self.vehicletype = String::new();
        self.vehicleyear = String::new();
        self.rating = Rating::zero();
        self.currentstatus = CurrentStatus::Inactive;
        self.address = String::new();
    }
}

impl Default for Driver {
    /// A blank driver whose address is `DEFAULT_ADDRESS`.
    fn default() -> (r: Driver)
        ensures
            r@ == (DriverView { address: DEFAULT_ADDRESS@, ..blank_driver() }),
    {
        Driver {
            name: String::new(),
            contact: String::new(),
            email: String::new(),
            role: String::new(),
            vehicleplatenumber: String::new(),
            vehicleseatnumber: String::new(),
            vehiclemake: String::new(),
            vehiclemodel: String::new(),
            vehiclecolor: String::new(),
            vehicletype: String::new(),
            vehicleyear: String::new(),
            rating: Rating::zero(),
            currentstatus: CurrentStatus::Inactive,
            address: String::from_str(DEFAULT_ADDRESS),
        }
    }
}

impl PartialEq for Driver {
    /// Field-by-field equality.
    fn eq(&self, other: &Driver) -> (r: bool)
        ensures
            r == (self@ == other@),
    {
        self.name == other.name
            && self.contact == other.contact
            && self.email == other.email
            && self.role == other.role
            && self.vehicleplatenumber == other.vehicleplatenumber
            && self.vehicleseatnumber == other.vehicleseatnumber
            && self.vehiclemake == other.vehiclemake
            && self.vehiclemodel == other.vehiclemodel
            && self.vehiclecolor == other.vehiclecolor
            && self.vehicletype == other.vehicletype
            && self.vehicleyear == other.vehicleyear
            && self.rating == other.rating
            && self.currentstatus == other.currentstatus
            && self.address == other.address
    }
}

impl vstd::std_specs::cmp::PartialEqSpecImpl for Driver {
    open spec fn obeys_eq_spec() -> bool {
        true
    }

    open spec fn eq_spec(&self, other: &Driver) -> bool {
        self@ == other@
    }
}

} // verus!
