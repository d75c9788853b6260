//! Device ids that end in a number.
use vstd::prelude::*;
use vstd::string::*;
use vstd::utf8::{encode_utf8, is_ascii_chars};
use crate::number::{
    all_digits, decimal, is_digit, law_decimal_reads_back, law_padding_keeps_value, number_in,
    pad_zeros, parse_number, to_decimal, value_of, zero_padded,
};
use crate::outside::{captures, regex_groups};
use crate::text::{opt_view, views};
use crate::types::{Device, DeviceView};

verus! {

/// The expression that takes an id apart into letters and a number.
pub const ID_PATTERN: &'static str = "^([a-zA-Z]+)(\\d+)$";

/// A letter of ASCII.
pub open spec fn is_letter(c: char) -> bool {
    ('a' <= c && c <= 'z') || ('A' <= c && c <= 'Z')
}

/// `id` is `k` letters and then digits, at least one of each, all of them ASCII.
pub open spec fn numbered(id: Seq<char>, k: int) -> bool {
    &&& 0 < k < id.len()
    &&& forall|i: int| 0 <= i < k ==> is_letter(#[trigger] id[i])
    &&& all_digits(id.skip(k))
}

/// The letters and the digits of an id that [`ID_PATTERN`] matches.
pub open spec fn id_parts(id: Seq<char>) -> Option<(Seq<char>, Seq<char>)> {
    match regex_groups(ID_PATTERN@, id) {
        Some(g) => Some((g[1]->0, g[2]->0)),
        None => None,
    }
}

/// The letters and the digits of an id that is made of nothing else, all of them ASCII.
pub open spec fn ascii_id_parts(id: Seq<char>) -> Option<(Seq<char>, Seq<char>)> {
    if exists|k: int| numbered(id, k) {
        let k = choose|k: int| numbered(id, k);
        Some((id.take(k), id.skip(k)))
    } else {
        None
    }
}

/// The number that digits stand for; 0 where it is above `u32::MAX` or they are not ASCII.
pub open spec fn number_of(digits: Seq<char>) -> nat {
    match number_in(digits, u32::MAX as nat) {
        Some(n) => n,
        None => 0,
    }
}

/// `prefix` and the number after the one that `digits` stand for, with leading zeros up to the
/// number of bytes of `digits`.
pub open spec fn id_after(prefix: Seq<char>, digits: Seq<char>) -> Seq<char> {
    prefix + zero_padded(decimal(number_of(digits) + 1), encode_utf8(digits).len())
}

/// The parts of the last id that has parts.
pub open spec fn last_id_parts(devices: Seq<DeviceView>) -> Option<(Seq<char>, Seq<char>)>
    decreases devices.len(),
{
    if devices.len() == 0 {
        None
    } else if id_parts(devices.last().id) is Some {
        id_parts(devices.last().id)
    } else {
        last_id_parts(devices.drop_last())
    }
}

/// The parts of the last id that has parts in ASCII.
pub open spec fn last_ascii_parts(devices: Seq<DeviceView>) -> Option<(Seq<char>, Seq<char>)>
    decreases devices.len(),
{
    if devices.len() == 0 {
        None
    } else if ascii_id_parts(devices.last().id) is Some {
        ascii_id_parts(devices.last().id)
    } else {
        last_ascii_parts(devices.drop_last())
    }
}

/// All ids are in ASCII.
pub open spec fn ids_are_ascii(devices: Seq<DeviceView>) -> bool {
    forall|i: int| 0 <= i < devices.len() ==> is_ascii_chars((#[trigger] devices[i]).id)
}

/// The id that is suggested for the next device; empty where no id gives a hint.
pub open spec fn suggested_id(devices: Seq<DeviceView>) -> Seq<char> {
    match last_id_parts(devices) {
        Some((prefix, digits)) => id_after(prefix, digits),
        None => Seq::empty(),
    }
}

/// The id that is suggested for the next device, where all ids are in ASCII.
pub open spec fn ascii_suggestion(devices: Seq<DeviceView>) -> Seq<char> {
    match last_ascii_parts(devices) {
        Some((prefix, digits)) => id_after(prefix, digits),
        None => Seq::empty(),
    }
}

/// The number of the last numbered id has a successor in `u32`.
pub open spec fn suggestion_fits(devices: Seq<DeviceView>) -> bool {
    last_id_parts(devices) matches Some((prefix, digits)) ==> number_of(digits) < u32::MAX
}

/// The number of the last numbered id has a successor in `u32`, where all ids are in ASCII.
pub open spec fn ascii_suggestion_fits(devices: Seq<DeviceView>) -> bool {
    last_ascii_parts(devices) matches Some((prefix, digits)) ==> number_of(digits) < u32::MAX
}

/// The id after the one made of `prefix` and `digits`.
pub fn next_id(prefix: &str, digits: &str) -> (r: String)
    requires
        number_of(digits@) < u32::MAX,
    ensures
        r@ == id_after(prefix@, digits@),
{
    let num: u32 = match parse_number(digits, u32::MAX) {
        Some(n) => n,
        None => 0,
    };
    let number: String = to_decimal((num + 1) as u64);
    let padded: String = pad_zeros(number.as_str(), digits.as_bytes().len());
    prefix.to_owned().concat(padded.as_str())
}

/// The letters and digits of the last id that [`ID_PATTERN`] matches.
fn find_last_parts(devices: &Vec<Device>) -> (r: Option<(String, String)>)
    ensures
        match r {
            Some(p) => last_id_parts(views(devices@)) == Some((p.0@, p.1@)),
            None => last_id_parts(views(devices@)) is None,
        },
        ids_are_ascii(views(devices@)) ==> last_id_parts(views(devices@)) == last_ascii_parts(
            views(devices@),
        ),
{
    let ghost all = views(devices@);
    let mut i: usize = devices.len();
    assert(all.take(i as int) =~= all);
    while i > 0
        invariant
            i <= devices@.len(),
            all == views(devices@),
            last_id_parts(all) == last_id_parts(all.take(i as int)),
            ids_are_ascii(all) ==> last_ascii_parts(all) == last_ascii_parts(all.take(i as int)),
        decreases i,
    {
        i = i - 1;
        assert(all.take(i + 1).last() == devices@[i as int]@);
        assert(all.take(i + 1).drop_last() =~= all.take(i as int));
        let ghost id = devices@[i as int].id@;
        assert(all[i as int].id == id);
        if let Some(groups) = captures(ID_PATTERN, devices[i].id.as_str()) {
            let ghost g = regex_groups(ID_PATTERN@, id)->0;
            assert(opt_view(groups@[1]) == g[1]);
            assert(opt_view(groups@[2]) == g[2]);
            proof {
                if is_ascii_chars(id) {
                    lemma_parts_are_ascii(id, g[1]->0, g[2]->0);
                }
            }
            if let (Some(prefix), Some(digits)) = (&groups[1], &groups[2]) {
                return Some((prefix.clone(), digits.clone()));
            }
        }
    }
    None
}

/// The parts of an id in ASCII are found whichever way the id is taken apart.
proof fn lemma_parts_are_ascii(id: Seq<char>, letters: Seq<char>, digits: Seq<char>)
    requires
        is_ascii_chars(id),
        letters.len() > 0,
        digits.len() > 0,
        letters + digits == id,
        forall|i: int| 0 <= i < letters.len() ==> is_letter(#[trigger] letters[i]),
        forall|i: int|
            0 <= i < digits.len() && (#[trigger] digits[i] as int) < 128 ==> is_digit(digits[i]),
    ensures
        ascii_id_parts(id) == Some((letters, digits)),
{
    let n = letters.len() as int;
    broadcast use vstd::utf8::is_ascii_chars_nat_bound;

    assert(id.skip(n) =~= digits);
    assert(id.take(n) =~= letters);
    assert forall|i: int| 0 <= i < digits.len() implies is_digit(#[trigger] digits[i]) by {
        assert(digits[i] == id[n + i]);
    }
    assert forall|i: int| 0 <= i < n implies is_letter(#[trigger] id[i]) by {
        assert(letters[i] == id[i]);
    }
    assert(numbered(id, n));
    let k = choose|k: int| numbered(id, k);
    if k < n {
        assert(id.skip(k)[0] == id[k]);
        assert(is_digit(id.skip(k)[0]));
    } else if n < k {
        assert(is_letter(id[n]));
        assert(id.skip(n)[0] == id[n]);
        assert(is_digit(digits[0]));
    }
}

/// The id that is suggested for the next device.
pub fn suggest_next_id(devices: &Vec<Device>) -> (r: String)
    requires
        suggestion_fits(views(devices@)),
    ensures
        r@ == suggested_id(views(devices@)),
        ids_are_ascii(views(devices@)) ==> r@ == ascii_suggestion(views(devices@)),
{
    match find_last_parts(devices) {
        Some((prefix, digits)) => next_id(prefix.as_str(), digits.as_str()),
        None => String::new(),
    }
}

/// The id that is suggested for the next device, unless the number has no successor.
pub fn try_suggest_next_id(devices: &Vec<Device>) -> (r: Option<String>)
    ensures
        r is Some <==> suggestion_fits(views(devices@)),
        r matches Some(id) ==> id@ == suggested_id(views(devices@)),
        ids_are_ascii(views(devices@)) ==> (r is Some <==> ascii_suggestion_fits(views(devices@))),
        r is Some && ids_are_ascii(views(devices@)) ==> r->0@ == ascii_suggestion(
            views(devices@),
        ),
{
    if let Some((_, digits)) = find_last_parts(devices) {
        if let Some(n) = parse_number(digits.as_str(), u32::MAX) {
            if n == u32::MAX {
                return None;
            }
        }
    }
    Some(suggest_next_id(devices))
}

/// The id after one that ends in a number has the same letters and then the next number, in as many
/// digits as before or as many as it needs. A number above what fits `u32` counts as 0.
pub proof fn law_next_id_counts_on(prefix: Seq<char>, digits: Seq<char>)
    requires
        digits.len() > 0,
        forall|i: int| 0 <= i < digits.len() ==> '0' <= #[trigger] digits[i] <= '9',
        value_of(digits) != u32::MAX,
    ensures
        ({
            let next = id_after(prefix, digits).skip(prefix.len() as int);
            let n = if value_of(digits) < u32::MAX {
                value_of(digits) + 1
            } else {
                1
            };
            &&& id_after(prefix, digits) == prefix + next
            &&& forall|i: int| 0 <= i < next.len() ==> '0' <= #[trigger] next[i] <= '9'
            &&& value_of(next) == n
            &&& next.len() == if decimal(n).len() > digits.len() {
                decimal(n).len()
            } else {
                digits.len()
            }
        }),
{
    let n = number_of(digits);
    assert forall|i: int| 0 <= i < digits.len() implies is_digit(#[trigger] digits[i]) by {}
    assert(is_ascii_chars(digits)) by {
        assert forall|i: int| 0 <= i < digits.len() implies (#[trigger] digits[i] as nat) < 128 by {
            assert(is_digit(digits[i]));
        }
    }
    vstd::utf8::is_ascii_chars_encode_utf8(digits);
    assert(is_digit(digits.first()));
    law_decimal_reads_back(n + 1);
    law_padding_keeps_value(decimal(n + 1), digits.len());
    let padded = zero_padded(decimal(n + 1), digits.len());
    assert((prefix + padded).skip(prefix.len() as int) =~= padded);
    assert(id_after(prefix, digits).skip(prefix.len() as int) =~= padded);
    assert forall|i: int| 0 <= i < padded.len() implies '0' <= #[trigger] padded[i] <= '9' by {
        assert(is_digit(padded[i]));
    }
}

/// The next id is suggested by the device that was added last, if its id is letters and then
/// digits; whether there is one depends on its number alone.
pub proof fn law_last_numbered_id_suggests(
    devices: Seq<DeviceView>,
    d: DeviceView,
    letters: Seq<char>,
    digits: Seq<char>,
)
    requires
        d.id == letters + digits,
        letters.len() > 0,
        digits.len() > 0,
        forall|i: int|
            0 <= i < letters.len() ==> ('a' <= #[trigger] letters[i] <= 'z' || 'A' <= letters[i]
                <= 'Z'),
        forall|i: int| 0 <= i < digits.len() ==> '0' <= #[trigger] digits[i] <= '9',
    ensures
        ascii_suggestion(devices.push(d)) == id_after(letters, digits),
        ascii_suggestion_fits(devices.push(d)) <==> value_of(digits) != u32::MAX,
{
    let id = d.id;
    let n = letters.len() as int;
    assert(id.take(n) =~= letters);
    assert(id.skip(n) =~= digits);
    assert forall|i: int| 0 <= i < digits.len() implies is_digit(#[trigger] digits[i]) by {}
    assert forall|i: int| 0 <= i < n implies is_letter(#[trigger] id[i]) by {
        assert(id[i] == letters[i]);
    }
    assert(numbered(id, n));
    assert(devices.push(d).last() == d);
    law_parts_of_numbered_id(devices.push(d), n);
    assert(is_digit(digits.first()));
}

/// An id that is not letters and then digits suggests nothing: what the devices before it suggest
/// stands, and without devices there is no suggestion.
pub proof fn law_other_ids_do_not_suggest(devices: Seq<DeviceView>, d: DeviceView, i: int, j: int)
    requires
        ({
            let id = d.id;
            ||| id.len() == 0
            ||| !('a' <= id[0] <= 'z' || 'A' <= id[0] <= 'Z')
            ||| !('0' <= id.last() <= '9')
            ||| (0 <= i <= j < id.len() && !('a' <= id[i] <= 'z' || 'A' <= id[i] <= 'Z') && !(
            '0' <= id[j] <= '9'))
        }),
    ensures
        ascii_suggestion(devices.push(d)) == ascii_suggestion(devices),
        ascii_suggestion_fits(devices.push(d)) == ascii_suggestion_fits(devices),
        ascii_suggestion(Seq::empty()).len() == 0,
        ascii_suggestion_fits(Seq::empty()),
{
    let id = d.id;
    assert(devices.push(d).last() == d);
    assert(devices.push(d).drop_last() =~= devices);
    assert forall|k: int| !numbered(id, k) by {
        if numbered(id, k) {
            assert(is_letter(id[0]));
            assert(is_digit(id.skip(k)[id.len() - k - 1]));
            assert(id.skip(k)[id.len() - k - 1] == id.last());
            if i < k {
                assert(is_letter(id[i]));
            } else {
                assert(is_digit(id.skip(k)[j - k]));
                assert(id.skip(k)[j - k] == id[j]);
            }
        }
    }
}

/// The next id is suggested by the last device whose id the expression matches, in whatever script
/// its digits are; without such a device there is no suggestion.
pub proof fn law_last_matching_id_suggests(devices: Seq<DeviceView>, d: DeviceView)
    ensures
        ID_PATTERN@ == "^([a-zA-Z]+)(\\d+)$"@,
        ({
            let found = regex_groups("^([a-zA-Z]+)(\\d+)$"@, d.id);
            &&& found is Some ==> suggested_id(devices.push(d)) == id_after(
                found->0[1]->0,
                found->0[2]->0,
            )
            &&& found is Some ==> (suggestion_fits(devices.push(d)) <==> number_of(found->0[2]->0)
                < u32::MAX)
            &&& found is None ==> suggested_id(devices.push(d)) == suggested_id(devices)
            &&& found is None ==> suggestion_fits(devices.push(d)) == suggestion_fits(devices)
        }),
        suggested_id(Seq::empty()).len() == 0,
        suggestion_fits(Seq::empty()),
{
    assert(devices.push(d).last() == d);
    assert(devices.push(d).drop_last() =~= devices);
}

/// Digits of which one is not of ASCII count as 0, and are as wide as their bytes.
pub proof fn law_other_digits_count_as_zero(prefix: Seq<char>, digits: Seq<char>, i: int)
    requires
        0 <= i < digits.len(),
        digits[i] as int >= 128,
    ensures
        number_of(digits) == 0,
        id_after(prefix, digits) == prefix + zero_padded(seq!['1'], encode_utf8(digits).len()),
{
    assert(!is_digit(digits[i]));
    if digits.first() == '+' {
        assert(digits.drop_first()[i - 1] == digits[i]);
    }
    assert(number_in(digits, u32::MAX as nat) is None);
    assert(decimal(1) =~= seq!['1']);
}

/// Ids are in ASCII exactly if each character of each is one of the first 128.
pub proof fn law_ascii_ids(devices: Seq<DeviceView>)
    ensures
        ids_are_ascii(devices) <==> forall|i: int, k: int|
            0 <= i < devices.len() && 0 <= k < devices[i].id.len() ==> ('\0'
                <= #[trigger] devices[i].id[k] <= '\u{7f}'),
{
    if ids_are_ascii(devices) {
        assert forall|i: int, k: int|
            0 <= i < devices.len() && 0 <= k < devices[i].id.len() implies ('\0'
            <= #[trigger] devices[i].id[k] <= '\u{7f}') by {
            assert(is_ascii_chars(devices[i].id));
        }
    }
}

/// Of a last id in ASCII that ends in a number, the parts are the letters and the digits.
pub proof fn law_parts_of_numbered_id(devices: Seq<DeviceView>, k: int)
    requires
        devices.len() > 0,
        numbered(devices.last().id, k),
    ensures
        last_ascii_parts(devices) == Some(
            (devices.last().id.take(k), devices.last().id.skip(k)),
        ),
{
    let id = devices.last().id;
    let j = choose|j: int| numbered(id, j);
    if j < k {
        assert(id.skip(j)[0] == id[j]);
        assert(is_digit(id.skip(j)[0]));
    } else if k < j {
        assert(id.skip(k)[0] == id[k]);
        assert(is_digit(id.skip(k)[0]));
    }
}

} // verus!
