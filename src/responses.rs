use vstd::prelude::*;
use serde_json::Value;
use crate::models::{BookingDetails, ResyError};
use crate::selector::SlotIndex;
use crate::time_of_day::{parse_spec, TimeOfDay};

verus! {

#[verifier::external_type_specification]
#[verifier::external_body]
pub struct ExValue(serde_json::Value);

/// What `serde_json::Value::pointer` finds in a value at a JSON Pointer path.
pub uninterp spec fn pointer_of(v: Value, path: Seq<char>) -> Option<Value>;

/// What `serde_json::Value::as_i64` makes of a value.
pub uninterp spec fn i64_of(v: Value) -> Option<i64>;

/// What `serde_json::Value::as_str` makes of a value.
pub uninterp spec fn str_of(v: Value) -> Option<Seq<char>>;

/// What `serde_json::Value::as_array` makes of a value.
pub uninterp spec fn array_of(v: Value) -> Option<Seq<Value>>;

/// Relies on `serde_json::Value::pointer`: the value at a JSON Pointer path,
/// which depends on the value and the path alone.
#[verifier::external_body]
fn json_pointer<'a>(v: &'a Value, path: &str) -> (r: Option<&'a Value>)
    ensures
        match r {
            Some(x) => pointer_of(*v, path@) == Some(*x),
            None => pointer_of(*v, path@) is None,
        },
{
    v.pointer(path)
}

/// Relies on `serde_json::Value::as_i64`: the value as an `i64`, if it is one.
#[verifier::external_body]
fn json_as_i64(v: &Value) -> (r: Option<i64>)
    ensures
        r == i64_of(*v),
{
    v.as_i64()
}

/// Relies on `serde_json::Value::as_str`: the value as a string, if it is one.
#[verifier::external_body]
fn json_as_str(v: &Value) -> (r: Option<String>)
    ensures
        opt_view(r) == str_of(*v),
{
    v.as_str().map(|s| s.to_string())
}

/// Relies on `serde_json::Value::as_array`: the elements, if it is an array.
#[verifier::external_body]
fn json_as_array(v: &Value) -> (r: Option<&Vec<Value>>)
    ensures
        match r {
            Some(a) => array_of(*v) == Some(a@),
            None => array_of(*v) is None,
        },
{
    v.as_array()
}

pub open spec fn opt_view(s: Option<String>) -> Option<Seq<char>> {
    match s {
        Some(x) => Some(x@),
        None => None,
    }
}

/// The integer at `path` in `v`, if there is one.
pub open spec fn integer_at_spec(v: Value, path: Seq<char>) -> Option<i64> {
    match pointer_of(v, path) {
        Some(x) => i64_of(x),
        None => None,
    }
}

/// The string at `path` in `v`, if there is one.
pub open spec fn string_at_spec(v: Value, path: Seq<char>) -> Option<Seq<char>> {
    match pointer_of(v, path) {
        Some(x) => str_of(x),
        None => None,
    }
}

fn integer_at(v: &Value, path: &str) -> (r: Option<i64>)
    ensures
        r == integer_at_spec(*v, path@),
{
    match json_pointer(v, path) {
        Some(x) => json_as_i64(x),
        None => None,
    }
}

fn string_at(v: &Value, path: &str) -> (r: Option<String>)
    ensures
        opt_view(r) == string_at_spec(*v, path@),
{
    match json_pointer(v, path) {
        Some(x) => json_as_str(x),
        None => None,
    }
}

/// `r` is an `UnknownError` with message `msg`.
pub open spec fn is_fault<T>(r: Result<T, ResyError>, msg: Seq<char>) -> bool {
    match r {
        Err(ResyError::UnknownError(m)) => m@ == msg,
        _ => false,
    }
}

pub open spec fn fits_i32(x: i64) -> bool {
    i32::MIN <= x && x <= i32::MAX
}

/// The booking details, or the error, that a payment method id and a booking
/// token give: a missing id is reported first, then a missing token, then an
/// id that does not fit an `i32`.
pub open spec fn details_result(
    payment_method_id: Option<i64>,
    booking_token: Option<Seq<char>>,
    r: Result<BookingDetails, ResyError>,
) -> bool {
    match payment_method_id {
        None => is_fault(r, "Could not find payment method id"@),
        Some(p) => match booking_token {
            None => is_fault(r, "Could not find booking token"@),
            Some(t) => if fits_i32(p) {
                match r {
                    Ok(d) => d.payment_method_id == p as i32 && d.booking_token@ == t,
                    Err(_) => false,
                }
            } else {
                is_fault(r, "Payment method id out of range"@)
            },
        },
    }
}

/// Booking details from the two fields that a detail response carries.
pub fn booking_details_from_fields(payment_method_id: Option<i64>, booking_token: Option<String>) -> (r:
    Result<BookingDetails, ResyError>)
    ensures
        details_result(payment_method_id, opt_view(booking_token), r),
{
    let p = match payment_method_id {
        Some(p) => p,
        None => return Err(ResyError::UnknownError(String::from_str("Could not find payment method id"))),
    };
    let t = match booking_token {
        Some(t) => t,
        None => return Err(ResyError::UnknownError(String::from_str("Could not find booking token"))),
    };
    if p < i32::MIN as i64 || p > i32::MAX as i64 {
        return Err(ResyError::UnknownError(String::from_str("Payment method id out of range")));
    }
    Ok(BookingDetails { payment_method_id: p as i32, booking_token: t })
}

/// Booking details out of a detail-fetch response: the id of the user's first
/// payment method and the booking token's value.
pub fn parse_booking_details(response: &Value) -> (r: Result<BookingDetails, ResyError>)
    ensures
        details_result(
            integer_at_spec(*response, "/user/payment_methods/0/id"@),
            string_at_spec(*response, "/book_token/value"@),
            r,
        ),
{
    let p = integer_at(response, "/user/payment_methods/0/id");
    let t = string_at(response, "/book_token/value");
    booking_details_from_fields(p, t)
}

/// The confirmation, or the error, that a confirmation token field gives.
pub open spec fn confirmation_result(resy_token: Option<Seq<char>>, r: Result<String, ResyError>) -> bool {
    match resy_token {
        Some(t) => match r {
            Ok(x) => x@ == t,
            Err(_) => false,
        },
        None => is_fault(r, "Could not find resy token"@),
    }
}

/// The confirmation token from the field that a commit response carries.
pub fn confirmation_from_field(resy_token: Option<String>) -> (r: Result<String, ResyError>)
    ensures
        resy_token matches Some(t) ==> r == Ok::<String, ResyError>(t),
        confirmation_result(opt_view(resy_token), r),
{
    match resy_token {
        Some(t) => Ok(t),
        None => Err(ResyError::UnknownError(String::from_str("Could not find resy token"))),
    }
}

/// The confirmation token out of a commit response.
pub fn parse_confirmation(response: &Value) -> (r: Result<String, ResyError>)
    ensures
        confirmation_result(string_at_spec(*response, "/resy_token"@), r),
{
    confirmation_from_field(string_at(response, "/resy_token"))
}

/// The time of day of a slot start written `YYYY-MM-DD HH:MM:SS`.
pub fn time_of_slot_start(start: &str) -> (r: Option<TimeOfDay>)
    ensures
        r == (if start@.len() >= 16 {
            parse_spec(start@.subrange(11, 16))
        } else {
            None
        }),
{
    if start.unicode_len() < 16 {
        return None;
    }
    TimeOfDay::parse(start.substring_char(11, 16))
}

/// The time of day of a slot start written `YYYY-MM-DD HH:MM:SS`.
pub open spec fn start_time_spec(start: Seq<char>) -> Option<TimeOfDay> {
    if start.len() >= 16 {
        parse_spec(start.subrange(11, 16))
    } else {
        None
    }
}

/// The slot that a start, a table type and a slot identifier describe, when
/// all three are there and the start holds a valid time.
pub open spec fn entry_from(
    start: Option<Seq<char>>,
    table_type: Option<Seq<char>>,
    config_id: Option<Seq<char>>,
) -> Option<(TimeOfDay, Seq<char>, Seq<char>)> {
    match (start, table_type, config_id) {
        (Some(s), Some(t), Some(c)) => match start_time_spec(s) {
            Some(time) => Some((time, t, c)),
            None => None,
        },
        _ => None,
    }
}

/// The slot that one element of a search response's slot list describes.
pub open spec fn entry_of(slot: Value) -> Option<(TimeOfDay, Seq<char>, Seq<char>)> {
    entry_from(
        string_at_spec(slot, "/date/start"@),
        string_at_spec(slot, "/config/type"@),
        string_at_spec(slot, "/config/token"@),
    )
}

/// The slot list of a search response: the first venue's `slots` array.
pub open spec fn slots_of(response: Value) -> Seq<Value> {
    match pointer_of(response, "/results/venues/0/slots"@) {
        Some(s) => match array_of(s) {
            Some(a) => a,
            None => Seq::empty(),
        },
        None => Seq::empty(),
    }
}

pub open spec fn entry_key_is(
    e: Option<(TimeOfDay, Seq<char>, Seq<char>)>,
    time: TimeOfDay,
    label: Seq<char>,
) -> bool {
    match e {
        Some((t, l, _)) => t == time && l == label,
        None => false,
    }
}

/// The last element of `slots` that describes a slot for `time` and `label`
/// gives it the identifier `id`.
pub open spec fn last_entry_is(slots: Seq<Value>, time: TimeOfDay, label: Seq<char>, id: Seq<char>) -> bool {
    exists|i: int|
        0 <= i < slots.len() && #[trigger] entry_of(slots[i]) == Some((time, label, id)) && forall|
            j: int,
        |
            i < j < slots.len() ==> !entry_key_is(#[trigger] entry_of(slots[j]), time, label)
}

/// Adds one slot of a search response to `index`: its start time, table type
/// and slot identifier. A slot that lacks one of them, or whose start time is
/// not `YYYY-MM-DD HH:MM:SS` with a valid time, leaves the index unchanged.
pub fn add_slot_entry(
    index: &mut SlotIndex,
    start: Option<String>,
    table_type: Option<String>,
    config_id: Option<String>,
)
    requires
        old(index).wf(),
    ensures
        final(index).wf(),
        match entry_from(opt_view(start), opt_view(table_type), opt_view(config_id)) {
            Some((time, tt, c)) => {
                &&& final(index).has_slot(time, tt, c)
                &&& forall|id: Seq<char>| #[trigger] final(index).has_slot(time, tt, id) ==> id == c
                &&& forall|t: TimeOfDay, label: Seq<char>, id: Seq<char>|
                    !(t == time && label == tt) ==> (#[trigger] final(index).has_slot(t, label, id)
                        == old(index).has_slot(t, label, id))
            },
            None => final(index).times@ == old(index).times@,
        },
{
    match (start, table_type, config_id) {
        (Some(s), Some(t), Some(c)) => match time_of_slot_start(s.as_str()) {
            Some(time) => {
                proof {
                    TimeOfDay::lemma_parse_wf(s@.subrange(11, 16));
                }
                index.insert(time, t, c)
            },
            None => {},
        },
        _ => {},
    }
}

/// The slot index of a search response: for each time and table type, the
/// identifier that the last element of the slot list describing them gives.
pub fn build_reservation_map(response: &Value) -> (r: SlotIndex)
    ensures
        r.wf(),
        forall|t: TimeOfDay, label: Seq<char>, id: Seq<char>|
            #[trigger] r.has_slot(t, label, id) == last_entry_is(slots_of(*response), t, label, id),
{
    let mut index = SlotIndex::new();
    let slots = match json_pointer(response, "/results/venues/0/slots") {
        Some(s) => match json_as_array(s) {
            Some(a) => a,
            None => return index,
        },
        None => return index,
    };
    assert(slots@ == slots_of(*response));
    let mut i: usize = 0;
    while i < slots.len()
        invariant
            index.wf(),
            i <= slots@.len(),
            forall|t: TimeOfDay, label: Seq<char>, id: Seq<char>|
                #[trigger] index.has_slot(t, label, id) == last_entry_is(slots@.take(i as int), t, label, id),
        decreases slots@.len() - i,
    {
        let slot = &slots[i];
        let ghost prev = index;
        let ghost pre = slots@.take(i as int);
        let ghost post = slots@.take(i + 1);
        let ghost e = entry_of(*slot);
        add_slot_entry(
            &mut index,
            string_at(slot, "/date/start"),
            string_at(slot, "/config/type"),
            string_at(slot, "/config/token"),
        );
        proof {
            assert(post =~= pre.push(*slot));
            assert forall|t: TimeOfDay, label: Seq<char>, id: Seq<char>|
                #[trigger] index.has_slot(t, label, id) == last_entry_is(post, t, label, id) by {
                lemma_last_entry_push(pre, *slot, t, label, id);
                if !entry_key_is(e, t, label) {
                    assert(index.has_slot(t, label, id) == prev.has_slot(t, label, id));
                }
            }
        }
        i = i + 1;
    }
    assert(slots@.take(slots@.len() as int) =~= slots@);
    index
}

/// How appending one element to a slot list changes which identifier the last
/// describing element gives.
proof fn lemma_last_entry_push(
    pre: Seq<Value>,
    slot: Value,
    t: TimeOfDay,
    label: Seq<char>,
    id: Seq<char>,
)
    ensures
        entry_key_is(entry_of(slot), t, label) ==> (last_entry_is(pre.push(slot), t, label, id) == (
        entry_of(slot) == Some((t, label, id)))),
        !entry_key_is(entry_of(slot), t, label) ==> (last_entry_is(pre.push(slot), t, label, id)
            == last_entry_is(pre, t, label, id)),
{
    let post = pre.push(slot);
    let n = pre.len() as int;
    assert(post[n] == slot);
    if entry_key_is(entry_of(slot), t, label) {
        if last_entry_is(post, t, label, id) {
            let i = choose|i: int|
                0 <= i < post.len() && #[trigger] entry_of(post[i]) == Some((t, label, id)) && forall|
                    j: int,
                |
                    i < j < post.len() ==> !entry_key_is(#[trigger] entry_of(post[j]), t, label);
            if i < n {
                assert(!entry_key_is(entry_of(post[n]), t, label));
            }
        }
        if entry_of(slot) == Some((t, label, id)) {
            assert(entry_of(post[n]) == Some((t, label, id)));
        }
    } else {
        if last_entry_is(post, t, label, id) {
            let i = choose|i: int|
                0 <= i < post.len() && #[trigger] entry_of(post[i]) == Some((t, label, id)) && forall|
                    j: int,
                |
                    i < j < post.len() ==> !entry_key_is(#[trigger] entry_of(post[j]), t, label);
            assert(i < n);
            assert(entry_of(pre[i]) == Some((t, label, id)));
            assert forall|j: int| i < j < pre.len() implies !entry_key_is(
                #[trigger] entry_of(pre[j]),
                t,
                label,
            ) by {
                assert(post[j] == pre[j]);
            }
        }
        if last_entry_is(pre, t, label, id) {
            let i = choose|i: int|
                0 <= i < pre.len() && #[trigger] entry_of(pre[i]) == Some((t, label, id)) && forall|
                    j: int,
                |
                    i < j < pre.len() ==> !entry_key_is(#[trigger] entry_of(pre[j]), t, label);
            assert(entry_of(post[i]) == Some((t, label, id)));
            assert forall|j: int| i < j < post.len() implies !entry_key_is(
                #[trigger] entry_of(post[j]),
                t,
                label,
            ) by {
                if j < n {
                    assert(post[j] == pre[j]);
                }
            }
        }
    }
}

} // verus!
