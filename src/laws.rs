//! Properties that relate several operations of the service, stated over
//! the same spec functions that the operations' contracts use.
use crate::driver::{lemma_active_status_field, lemma_name_field, Driver, DriverView};
use crate::rating::{parsed_rating, rating_text, Rating};
use crate::record::{field_matches, Record};
use crate::rider::RiderView;
use crate::service::{ride_for_request, SetRating};
use crate::status::CurrentStatus;
use crate::text::{
    all_digits, decimal_text, digit_char, is_digit, lemma_decimal_text, lemma_digit_char,
};
use crate::store::{
    all_matches, edited, first_record, has_match, is_first_match,
    lemma_first_match_exists, lemma_first_match_unique, replaced, views,
};
use vstd::prelude::*;

verus! {

/// A sequence with no element that satisfies `pred` filters to nothing.
proof fn lemma_filter_none<A>(s: Seq<A>, pred: spec_fn(A) -> bool)
    requires
        forall|i: int| 0 <= i < s.len() ==> !pred(#[trigger] s[i]),
    ensures
        s.filter(pred).len() == 0,
    decreases s.len(),
{
    reveal(Seq::filter);
    if s.len() > 0 {
        assert forall|i: int| 0 <= i < s.drop_last().len() implies !pred(
            #[trigger] s.drop_last()[i],
        ) by {
            assert(s.drop_last()[i] == s[i]);
        }
        lemma_filter_none(s.drop_last(), pred);
        assert(!pred(s[s.len() - 1]));
    }
}

/// A rating's text reads back as the same rating, so writing a driver's
/// rating field with the text it renders to leaves the rating unchanged.
pub proof fn law_rating_text_round_trip(r: Rating)
    ensures
        parsed_rating(rating_text(r.hundredths as nat)) == Some(r),
{
    let h = r.hundredths as nat;
    let whole = decimal_text(h / 100);
    let cents = h % 100;
    lemma_decimal_text(h / 100);
    lemma_digit_char(cents / 10);
    lemma_digit_char(cents % 10);
    let s = rating_text(h);
    let n = s.len();
    if cents == 0 {
        assert(s == whole);
    } else if cents % 10 == 0 {
        assert(s == whole.push('.').push(digit_char(cents / 10)));
        assert(s.take(n - 2) =~= whole);
        assert(!all_digits(s)) by {
            assert(s[n - 2] == '.');
            assert(!is_digit(s[n - 2]));
        }
    } else {
        assert(s == whole.push('.').push(digit_char(cents / 10)).push(digit_char(cents % 10)));
        assert(s.take(n - 3) =~= whole);
        assert(!all_digits(s)) by {
            assert(s[n - 3] == '.');
            assert(!is_digit(s[n - 3]));
        }
        assert(s[n - 2] != '.');
    }
}

/// Listing the store after an insert shows every earlier record, in its
/// earlier position, followed by the inserted record.
pub proof fn law_insert_then_list<R: Record>(before: Seq<R::V>, record: R::V, listed: Seq<R>)
    requires
        views(listed) == before.push(record),
    ensures
        listed.len() == before.len() + 1,
        listed[before.len() as int]@ == record,
        forall|i: int| 0 <= i < before.len() ==> #[trigger] listed[i]@ == before[i],
{
    assert(views(listed).len() == listed.len());
    assert(views(listed)[before.len() as int] == listed[before.len() as int]@);
    assert forall|i: int| 0 <= i < before.len() implies #[trigger] listed[i]@ == before[i] by {
        assert(views(listed)[i] == listed[i]@);
        assert(views(listed)[i] == before.push(record)[i]);
    }
}

/// After inserting a record whose `field` renders as `value`, searching for
/// that value finds a record whose `field` renders as `value`.
pub proof fn law_search_finds_inserted<R: Record>(
    before: Seq<R::V>,
    record: R::V,
    field: Seq<char>,
    value: Seq<char>,
)
    requires
        field_matches::<R>(record, field, value),
    ensures
        first_record::<R>(before.push(record), field, value) is Some,
        field_matches::<R>(first_record::<R>(before.push(record), field, value).unwrap(), field, value),
{
    let s = before.push(record);
    assert(s[before.len() as int] == record);
    assert(has_match::<R>(s, field, value));
    lemma_first_match_exists::<R>(s, field, value);
}

/// When no record matches, the first-match search finds nothing and the
/// all-matches search returns an empty sequence.
pub proof fn law_no_match_finds_nothing<R: Record>(s: Seq<R::V>, field: Seq<char>, value: Seq<char>)
    requires
        !has_match::<R>(s, field, value),
    ensures
        first_record::<R>(s, field, value) is None,
        all_matches::<R>(s, field, value).len() == 0,
{
    let pred = |v: R::V| field_matches::<R>(v, field, value);
    assert forall|i: int| 0 <= i < s.len() implies !pred(#[trigger] s[i]) by {
        if pred(s[i]) {
            assert(has_match::<R>(s, field, value));
        }
    }
    lemma_filter_none(s, pred);
}

/// Setting the rating of the drivers with a given name changes only those
/// drivers' ratings: their other fields, every other driver, and the order
/// stay as they were.
pub proof fn law_rating_update_is_local(before: Seq<DriverView>, name: Seq<char>, rating: Rating)
    ensures
        edited::<Driver, SetRating>(before, "name"@, name, SetRating(rating)).len() == before.len(),
        forall|i: int|
            0 <= i < before.len() ==> #[trigger] edited::<Driver, SetRating>(
                before,
                "name"@,
                name,
                SetRating(rating),
            )[i] == (if before[i].name == name {
                DriverView { rating, ..before[i] }
            } else {
                before[i]
            }),
{
    assert forall|i: int| 0 <= i < before.len() implies #[trigger] edited::<Driver, SetRating>(
        before,
        "name"@,
        name,
        SetRating(rating),
    )[i] == (if before[i].name == name {
        DriverView { rating, ..before[i] }
    } else {
        before[i]
    }) by {
        lemma_name_field(before[i]);
    }
}

/// Replacing by an identity that no record carries appends the new record
/// at the end and keeps every other record.
pub proof fn law_replace_without_match_appends<R: Record>(
    before: Seq<R::V>,
    field: Seq<char>,
    id: Seq<char>,
    new: R::V,
)
    requires
        !has_match::<R>(before, field, id),
    ensures
        replaced::<R>(before, field, id, new) == before.push(new),
{
}

/// Replacing by an identity that exactly one record carries keeps the
/// length, takes that record out, and puts the new record at the end.
pub proof fn law_replace_single_match_swaps<R: Record>(
    before: Seq<R::V>,
    field: Seq<char>,
    id: Seq<char>,
    new: R::V,
    k: int,
)
    requires
        0 <= k < before.len(),
        field_matches::<R>(before[k], field, id),
        forall|j: int|
            0 <= j < before.len() && j != k ==> !field_matches::<R>(#[trigger] before[j], field, id),
    ensures
        replaced::<R>(before, field, id, new) == before.remove(k).push(new),
        replaced::<R>(before, field, id, new).len() == before.len(),
        replaced::<R>(before, field, id, new).last() == new,
        forall|j: int|
            0 <= j < before.len() - 1 ==> !field_matches::<R>(
                #[trigger] replaced::<R>(before, field, id, new)[j],
                field,
                id,
            ),
{
    assert(is_first_match::<R>(before, field, id, k));
    lemma_first_match_unique::<R>(before, field, id, k);
    let after = replaced::<R>(before, field, id, new);
    assert(after == before.remove(k).push(new));
    assert forall|j: int| 0 <= j < before.len() - 1 implies !field_matches::<R>(
        #[trigger] after[j],
        field,
        id,
    ) by {
        if j < k {
            assert(after[j] == before[j]);
        } else {
            assert(after[j] == before[j + 1]);
        }
    }
}

/// When exactly one driver is active, a ride request pairs the rider with
/// that driver.
pub proof fn law_request_picks_the_active_driver(
    drivers: Seq<DriverView>,
    a: int,
    rider: RiderView,
    pickup: Seq<char>,
    dropoff: Seq<char>,
    timestamp: Seq<char>,
)
    requires
        0 <= a < drivers.len(),
        drivers[a].currentstatus == CurrentStatus::Active,
        forall|j: int|
            0 <= j < drivers.len() && j != a ==> #[trigger] drivers[j].currentstatus
                == CurrentStatus::Inactive,
    ensures
        has_match::<Driver>(drivers, "currentstatus"@, "Active"@),
        ride_for_request(drivers, rider, pickup, dropoff, timestamp).driver == drivers[a],
{
    lemma_active_status_field(drivers[a]);
    assert forall|j: int| 0 <= j < a implies !field_matches::<Driver>(
        #[trigger] drivers[j],
        "currentstatus"@,
        "Active"@,
    ) by {
        lemma_active_status_field(drivers[j]);
    }
    assert(is_first_match::<Driver>(drivers, "currentstatus"@, "Active"@, a));
    lemma_first_match_unique::<Driver>(drivers, "currentstatus"@, "Active"@, a);
}

/// When no driver is active, no driver matches the ride request, so the
/// request reports that no driver is available.
pub proof fn law_request_without_active_driver(drivers: Seq<DriverView>)
    requires
        forall|j: int|
            0 <= j < drivers.len() ==> #[trigger] drivers[j].currentstatus
                == CurrentStatus::Inactive,
    ensures
        !has_match::<Driver>(drivers, "currentstatus"@, "Active"@),
{
    assert forall|j: int| 0 <= j < drivers.len() implies !field_matches::<Driver>(
        #[trigger] drivers[j],
        "currentstatus"@,
        "Active"@,
    ) by {
        lemma_active_status_field(drivers[j]);
    }
}

} // verus!
