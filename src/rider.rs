//! Riders: identity fields only.
use crate::record::{render_field, rendered, Record};
use crate::text::text_eq;
use vstd::prelude::*;
use vstd::string::*;

verus! {

/// The address given to records built without one.
pub const DEFAULT_ADDRESS: &'static str = "cjr37-nxx7a-keiqq-efh5n-v47nd-ceddb-2c6hg-aseen-h66ih-so563-hae";

#[derive(Clone, Debug)]
pub struct Rider {
    pub name: String,
    pub contact: String,
    pub email: String,
    pub role: String,
    pub address: String,
}

/// A rider as plain text values.
pub struct RiderView {
    pub name: Seq<char>,
    pub contact: Seq<char>,
    pub email: Seq<char>,
    pub role: Seq<char>,
    pub address: Seq<char>,
}

impl View for Rider {
    type V = RiderView;

    open spec fn view(&self) -> RiderView {
        RiderView {
            name: self.name@,
            contact: self.contact@,
            email: self.email@,
            role: self.role@,
            address: self.address@,
        }
    }
}

/// The fields of a rider, by name.
#[derive(Clone, Copy, Debug, PartialEq, Eq, Structural)]
pub enum RiderField {
    Name,
    Contact,
    Email,
    Role,
    Address,
}

pub open spec fn rider_field_named(name: Seq<char>) -> Option<RiderField> {
    if name == "name"@ {
        Some(RiderField::Name)
    } else if name == "contact"@ {
        Some(RiderField::Contact)
    } else if name == "email"@ {
        Some(RiderField::Email)
    } else if name == "role"@ {
        Some(RiderField::Role)
    } else if name == "address"@ {
        Some(RiderField::Address)
    } else {
        None
    }
}

impl RiderView {
    pub open spec fn text_of(self, f: RiderField) -> Seq<char> {
        match f {
            RiderField::Name => self.name,
            RiderField::Contact => self.contact,
            RiderField::Email => self.email,
            RiderField::Role => self.role,
            RiderField::Address => self.address,
        }
    }
}

impl RiderField {
    /// The field with this name, if there is one.
    pub fn from_name(name: &str) -> (r: Option<RiderField>)
        ensures
            r == rider_field_named(name@),
    {
        if text_eq(name, "name") {
            Some(RiderField::Name)
        } else if text_eq(name, "contact") {
            Some(RiderField::Contact)
        } else if text_eq(name, "email") {
            Some(RiderField::Email)
        } else if text_eq(name, "role") {
            Some(RiderField::Role)
        } else if text_eq(name, "address") {
            Some(RiderField::Address)
        } else {
            None
        }
    }
}

impl Record for Rider {
    open spec fn field_text(v: RiderView, field: Seq<char>) -> Option<Seq<char>> {
        match rider_field_named(field) {
            Some(f) => Some(v.text_of(f)),
            None => None,
        }
    }

    fn find_field(&self, field: &str) -> (r: Option<String>) {
        match RiderField::from_name(field) {
            Some(f) => Some(self.value_of(f)),
            None => None,
        }
    }

    fn snapshot(&self) -> (r: Rider) {
        Rider {
            name: self.name.clone(),
            contact: self.contact.clone(),
            email: self.email.clone(),
            role: self.role.clone(),
            address: self.address.clone(),
        }
    }
}

impl Rider {
    /// A rider with the given fields.
    pub fn new(name: String, contact: String, email: String, role: String, address: String) -> (r:
        Rider)
        ensures
            r@ == (RiderView {
                name: name@,
                contact: contact@,
                email: email@,
                role: role@,
                address: address@,
            }),
    {
        Rider { name, contact, email, role, address }
    }

    /// The value of one field.
    pub fn value_of(&self, f: RiderField) -> (r: String)
        ensures
            r@ == self@.text_of(f),
    {
        match f {
            RiderField::Name => self.name.clone(),
            RiderField::Contact => self.contact.clone(),
            RiderField::Email => self.email.clone(),
            RiderField::Role => self.role.clone(),
            RiderField::Address => self.address.clone(),
        }
    }

    /// The field named `field` as text; empty for an unknown name.
    pub fn get_field(&self, field: String) -> (r: String)
        ensures
            r@ == rendered::<Rider>(self@, field@),
    {
        render_field(self, field.as_str())
    }

    pub fn get_name(&self) -> (r: String)
        ensures
            r@ == self.name@,
    {
        self.name.clone()
    }

    pub fn name(&self) -> (r: &str)
        ensures
            r@ == self.name@,
    {
        self.name.as_str()
    }

    pub fn contact(&self) -> (r: &str)
        ensures
            r@ == self.contact@,
    {
        self.contact.as_str()
    }

    pub fn email(&self) -> (r: &str)
        ensures
            r@ == self.email@,
    {
        self.email.as_str()
    }

    pub fn role(&self) -> (r: &str)
        ensures
            r@ == self.role@,
    {
        self.role.as_str()
    }

    pub fn address(&self) -> (r: &str)
        ensures
            r@ == self.address@,
    {
        self.address.as_str()
    }
}

impl Default for Rider {
    /// Empty text in every field but the address, which is `DEFAULT_ADDRESS`.
    fn default() -> (r: Rider)
        ensures
            r.name@ == Seq::<char>::empty(),
            r.contact@ == Seq::<char>::empty(),
            r.email@ == Seq::<char>::empty(),
            r.role@ == Seq::<char>::empty(),
            r.address@ == DEFAULT_ADDRESS@,
    {
        Rider {
            name: String::new(),
            contact: String::new(),
            email: String::new(),
            role: String::new(),
            address: String::from_str(DEFAULT_ADDRESS),
        }
    }
}

} // verus!
