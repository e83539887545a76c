//! What every stored record offers: a view, field lookup by name, and a
//! by-value snapshot.
use vstd::prelude::*;

verus! {

/// The errors a call on the service can report.
#[derive(Clone, Copy, Debug, PartialEq, Eq, Structural)]
pub enum ServiceError {
    /// The field name is not one of the record kind's fields.
    InvalidFieldName,
    /// A ride was requested while no driver is active.
    NoAvailableDriver,
    /// A field's text could not be read as the field's type.
    ParseError,
}

/// A record kind that can be kept in a `RecordStore`.
pub trait Record: Sized + View {
    /// The text of the field named `field`, or `None` when the kind has no
    /// such field.
    spec fn field_text(v: Self::V, field: Seq<char>) -> Option<Seq<char>>;

    /// Looks a field up by name and writes its value as text.
    fn find_field(&self, field: &str) -> (r: Option<String>)
        ensures
            r is None <==> Self::field_text(self@, field@) is None,
            r matches Some(t) ==> Self::field_text(self@, field@) == Some(t@),
    ;

    /// An independent copy of the record.
    fn snapshot(&self) -> (r: Self)
        ensures
            r@ == self@,
    ;
}

/// The text a field renders to; an unknown field renders as empty text.
pub open spec fn rendered<R: Record>(v: R::V, field: Seq<char>) -> Seq<char> {
    match R::field_text(v, field) {
        Some(t) => t,
        None => Seq::empty(),
    }
}

/// Whether a record's `field` renders exactly as `value`.
pub open spec fn field_matches<R: Record>(v: R::V, field: Seq<char>, value: Seq<char>) -> bool {
    rendered::<R>(v, field) == value
}

/// The text a field renders to, as `rendered` says.
pub fn render_field<R: Record>(r: &R, field: &str) -> (t: String)
    ensures
        t@ == rendered::<R>(r@, field@),
{
    match r.find_field(field) {
        Some(t) => t,
        None => String::new(),
    }
}

/// The text of a field, or `InvalidFieldName` when the kind has no such field.
pub fn field_or_error<R: Record>(r: &R, field: &str) -> (res: Result<String, ServiceError>)
    ensures
        res is Err <==> R::field_text(r@, field@) is None,
        res matches Err(e) ==> e == ServiceError::InvalidFieldName,
        res matches Ok(t) ==> R::field_text(r@, field@) == Some(t@),
{
    match r.find_field(field) {
        Some(t) => Ok(t),
        None => Err(ServiceError::InvalidFieldName),
    }
}

} // verus!
