//! An ordered store of one record kind, answering field-keyed queries by a
//! linear scan.
use crate::record::{field_matches, render_field, Record};
use crate::text::text_eq;
use vstd::prelude::*;

verus! {

/// `i` is the earliest position whose `field` renders as `value`.
pub open spec fn is_first_match<R: Record>(
    s: Seq<R::V>,
    field: Seq<char>,
    value: Seq<char>,
    i: int,
) -> bool {
    &&& 0 <= i < s.len()
    &&& field_matches::<R>(s[i], field, value)
    &&& forall|j: int| 0 <= j < i ==> !field_matches::<R>(#[trigger] s[j], field, value)
}

/// Some record's `field` renders as `value`.
pub open spec fn has_match<R: Record>(s: Seq<R::V>, field: Seq<char>, value: Seq<char>) -> bool {
    exists|i: int| 0 <= i < s.len() && field_matches::<R>(#[trigger] s[i], field, value)
}

/// The earliest matching position (meaningful when `has_match`).
pub open spec fn first_match<R: Record>(s: Seq<R::V>, field: Seq<char>, value: Seq<char>) -> int {
    choose|i: int| is_first_match::<R>(s, field, value, i)
}

/// The earliest matching record, if any.
pub open spec fn first_record<R: Record>(s: Seq<R::V>, field: Seq<char>, value: Seq<char>) -> Option<
    R::V,
> {
    if has_match::<R>(s, field, value) {
        Some(s[first_match::<R>(s, field, value)])
    } else {
        None
    }
}

/// Every matching record, in store order.
pub open spec fn all_matches<R: Record>(s: Seq<R::V>, field: Seq<char>, value: Seq<char>) -> Seq<
    R::V,
> {
    s.filter(|v: R::V| field_matches::<R>(v, field, value))
}

/// The store with its earliest matching record taken out; unchanged when
/// nothing matches.
pub open spec fn without_first<R: Record>(
    s: Seq<R::V>,
    field: Seq<char>,
    value: Seq<char>,
) -> Seq<R::V> {
    if has_match::<R>(s, field, value) {
        s.remove(first_match::<R>(s, field, value))
    } else {
        s
    }
}

/// The store with its earliest matching record taken out and `new` appended
/// at the end, whether or not a record was taken out.
pub open spec fn replaced<R: Record>(
    s: Seq<R::V>,
    field: Seq<char>,
    value: Seq<char>,
    new: R::V,
) -> Seq<R::V> {
    without_first::<R>(s, field, value).push(new)
}

/// Every matching record changed by `edit`; the others, and the order, kept.
pub open spec fn edited<R: Record, E: Edit<R>>(
    s: Seq<R::V>,
    field: Seq<char>,
    value: Seq<char>,
    edit: E,
) -> Seq<R::V> {
    s.map_values(
        |v: R::V|
            if field_matches::<R>(v, field, value) {
                edit.applied(v)
            } else {
                v
            },
    )
}

/// The views of a sequence of records.
pub open spec fn views<R: View>(s: Seq<R>) -> Seq<R::V> {
    s.map_values(|r: R| r@)
}

/// A change to one record.
pub trait Edit<R: Record>: Sized {
    spec fn applied(&self, v: R::V) -> R::V;

    fn apply(&self, r: &mut R)
        ensures
            final(r)@ == self.applied(old(r)@),
    ;
}

/// The first match, once found, is the one `first_match` names.
pub proof fn lemma_first_match_unique<R: Record>(
    s: Seq<R::V>,
    field: Seq<char>,
    value: Seq<char>,
    i: int,
)
    requires
        is_first_match::<R>(s, field, value, i),
    ensures
        has_match::<R>(s, field, value),
        first_match::<R>(s, field, value) == i,
{
    let k = first_match::<R>(s, field, value);
    assert(is_first_match::<R>(s, field, value, k));
    if k < i {
        assert(!field_matches::<R>(s[k], field, value));
    }
    if i < k {
        assert(!field_matches::<R>(s[i], field, value));
    }
}

/// When something matches, `first_match` is the earliest match.
pub proof fn lemma_first_match_exists<R: Record>(s: Seq<R::V>, field: Seq<char>, value: Seq<char>)
    requires
        has_match::<R>(s, field, value),
    ensures
        is_first_match::<R>(s, field, value, first_match::<R>(s, field, value)),
    decreases s.len(),
{
    let last = s.len() - 1;
    let front = s.drop_last();
    if has_match::<R>(front, field, value) {
        lemma_first_match_exists::<R>(front, field, value);
        let i = first_match::<R>(front, field, value);
        assert forall|j: int| 0 <= j < i implies !field_matches::<R>(
            #[trigger] s[j],
            field,
            value,
        ) by {
            assert(s[j] == front[j]);
        }
        assert(s[i] == front[i]);
        lemma_first_match_unique::<R>(s, field, value, i);
    } else {
        assert forall|j: int| 0 <= j < last implies !field_matches::<R>(
            #[trigger] s[j],
            field,
            value,
        ) by {
            assert(front[j] == s[j]);
        }
        let w = choose|w: int| 0 <= w < s.len() && field_matches::<R>(#[trigger] s[w], field, value);
        assert(w == last);
        assert(is_first_match::<R>(s, field, value, last));
    }
}

/// An ordered collection of records of one kind.
pub struct RecordStore<R> {
    records: Vec<R>,
}

impl<R: Record> View for RecordStore<R> {
    type V = Seq<R::V>;

    closed spec fn view(&self) -> Seq<R::V> {
        views(self.records@)
    }
}

impl<R: Record> RecordStore<R> {
    /// An empty store.
    pub fn new() -> (s: RecordStore<R>)
        ensures
            s@ == Seq::<R::V>::empty(),
    {
        let s = RecordStore { records: Vec::new() };
        assert(s@ =~= Seq::<R::V>::empty());
        s
    }

    pub fn len(&self) -> (n: usize)
        ensures
            n == self@.len(),
    {
        self.records.len()
    }

    /// The record at position `i`.
    pub fn get(&self, i: usize) -> (r: &R)
        requires
            i < self@.len(),
        ensures
            r@ == self@[i as int],
    {
        &self.records[i]
    }

    /// Appends a record at the end.
    pub fn insert(&mut self, record: R)
        ensures
            final(self)@ == old(self)@.push(record@),
    {
        self.records.push(record);
        assert(final(self)@ =~= old(self)@.push(record@));
    }

    /// A copy of every record, in store order.
    pub fn list_all(&self) -> (all: Vec<R>)
        ensures
            views(all@) == self@,
    {
        let mut all: Vec<R> = Vec::new();
        let mut i: usize = 0;
        while i < self.records.len()
            invariant
                i <= self.records@.len(),
                all@.len() == i,
                forall|k: int| 0 <= k < i ==> #[trigger] all@[k]@ == self.records@[k]@,
            decreases self.records@.len() - i,
        {
            let r = self.records[i].snapshot();
            all.push(r);
            i += 1;
        }
        assert(views(all@) =~= self@);
        all
    }

    /// The position of the earliest record whose `field` renders as `value`.
    pub fn position_first(&self, field: &str, value: &str) -> (r: Option<usize>)
        ensures
            r matches Some(i) ==> is_first_match::<R>(self@, field@, value@, i as int)
                && first_match::<R>(self@, field@, value@) == i,
            r is None <==> !has_match::<R>(self@, field@, value@),
    {
        let mut i: usize = 0;
        while i < self.records.len()
            invariant
                i <= self.records@.len(),
                forall|j: int| 0 <= j < i ==> !field_matches::<R>(#[trigger] self@[j], field@, value@),
            decreases self.records@.len() - i,
        {
            let t = render_field(&self.records[i], field);
            if text_eq(t.as_str(), value) {
                proof {
                    lemma_first_match_unique::<R>(self@, field@, value@, i as int);
                }
                return Some(i);
            }
            i += 1;
        }
        None
    }

    /// A copy of the earliest record whose `field` renders as `value`, or
    /// `None` when no record matches.
    pub fn search_first(&self, field: &str, value: &str) -> (r: Option<R>)
        ensures
            r is None <==> first_record::<R>(self@, field@, value@) is None,
            r matches Some(x) ==> first_record::<R>(self@, field@, value@) == Some(x@),
    {
        match self.position_first(field, value) {
            Some(i) => Some(self.records[i].snapshot()),
            None => None,
        }
    }

    /// Copies of every record whose `field` renders as `value`, in store
    /// order; empty when none match.
    pub fn search_all(&self, field: &str, value: &str) -> (r: Vec<R>)
        ensures
            views(r@) == all_matches::<R>(self@, field@, value@),
    {
        let ghost pred = |v: R::V| field_matches::<R>(v, field@, value@);
        let mut found: Vec<R> = Vec::new();
        let mut i: usize = 0;
        while i < self.records.len()
            invariant
                i <= self.records@.len(),
                pred == (|v: R::V| field_matches::<R>(v, field@, value@)),
                views(found@) =~= self@.take(i as int).filter(pred),
            decreases self.records@.len() - i,
        {
            proof {
                assert(self@.take(i + 1) =~= self@.take(i as int).push(self@[i as int]));
                self@.take(i as int).lemma_filter_push(self@[i as int], pred);
            }
            let t = render_field(&self.records[i], field);
            if text_eq(t.as_str(), value) {
                found.push(self.records[i].snapshot());
            }
            i += 1;
        }
        assert(self@.take(i as int) =~= self@);
        found
    }

    /// Takes out the earliest record whose `field` renders as `value`;
    /// does nothing when none matches.
    pub fn remove_first(&mut self, field: &str, value: &str)
        ensures
            final(self)@ == without_first::<R>(old(self)@, field@, value@),
    {
        match self.position_first(field, value) {
            Some(i) => {
                self.records.remove(i);
                assert(self@ =~= old(self)@.remove(i as int));
            },
            None => {},
        }
    }

    /// Takes out the earliest record whose `field` renders as `value`, then
    /// appends `record` at the end, whether or not one was taken out.
    pub fn replace_first(&mut self, field: &str, value: &str, record: R)
        ensures
            final(self)@ == replaced::<R>(old(self)@, field@, value@, record@),
    {
        self.remove_first(field, value);
        self.insert(record);
    }

    /// Applies `edit` to every record whose `field` renders as `value`.
    pub fn update_all<E: Edit<R>>(&mut self, field: &str, value: &str, edit: &E)
        ensures
            final(self)@ == edited::<R, E>(old(self)@, field@, value@, *edit),
    {
        let ghost start = self@;
        let mut i: usize = 0;
        while i < self.records.len()
            invariant
                i <= self.records@.len(),
                self.records@.len() == start.len(),
                forall|j: int|
                    0 <= j < i ==> #[trigger] self.records@[j]@ == (if field_matches::<R>(
                        start[j],
                        field@,
                        value@,
                    ) {
                        edit.applied(start[j])
                    } else {
                        start[j]
                    }),
                forall|j: int| i <= j < self.records@.len() ==> #[trigger] self.records@[j]@ == start[j],
            decreases self.records@.len() - i,
        {
            let t = render_field(&self.records[i], field);
            if text_eq(t.as_str(), value) {
                let mut r = self.records[i].snapshot();
                edit.apply(&mut r);
                self.records.set(i, r);
            }
            i += 1;
        }
        assert(self@ =~= edited::<R, E>(start, field@, value@, *edit));
    }
}

} // verus!
