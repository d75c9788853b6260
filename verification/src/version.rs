//! Versions: the next one, and the one that a device reports.
use vstd::prelude::*;
use vstd::string::*;
use crate::number::{decimal, is_digit, law_decimal_reads_back, number_in, parse_number, to_decimal};
use crate::text::{
    first_word, is_white, law_split_first, law_split_pieces, law_split_whole, leading_word,
    opt_view, same, split, split_on, starts_with, views, word,
};

verus! {

/// What a status begins with that states the version of a device.
pub open spec fn online_prefix() -> Seq<char> {
    "ONLINE v"@
}

/// The version that a status states.
pub open spec fn reported_version(status: Seq<char>) -> Option<Seq<char>> {
    if online_prefix().is_prefix_of(status) {
        first_word(status.skip(online_prefix().len() as int))
    } else {
        None
    }
}

/// The status says that the device runs `version`: nothing follows, or more after a space.
pub open spec fn confirms(status: Seq<char>, version: Seq<char>) -> bool {
    let expected = online_prefix() + version;
    status == expected || (expected + " "@).is_prefix_of(status)
}

/// The third component of a version as a number; 0 where it is none.
pub open spec fn patch_of(version: Seq<char>) -> nat {
    match number_in(split_on(version, '.')[2], u32::MAX as nat) {
        Some(n) => n,
        None => 0,
    }
}

/// The patch number has a successor in `u32`, where there is one.
pub open spec fn can_bump(version: Seq<char>) -> bool {
    split_on(version, '.').len() >= 3 ==> patch_of(version) < u32::MAX
}

/// The version after `version`: the same major and minor number and the next patch number.
/// What has fewer than three components gets one more.
pub open spec fn bumped(version: Seq<char>) -> Seq<char> {
    let parts = split_on(version, '.');
    if parts.len() < 3 {
        version + ".1"@
    } else {
        parts[0] + "."@ + parts[1] + "."@ + decimal(patch_of(version) + 1)
    }
}

/// The version that a status states, as in `ONLINE v1.0.1`.
pub fn parse_version_from_status(status: &str) -> (r: Option<String>)
    ensures
        opt_view(r) == reported_version(status@),
{
    if !starts_with(status, "ONLINE v") {
        return None;
    }
    proof {
        reveal_strlit("ONLINE v");
    }
    let n: usize = status.unicode_len();
    let rest: &str = status.substring_char(8, n);
    assert(rest@ =~= status@.skip(8));
    word(rest)
}

/// Tells whether a status confirms that a device runs a version.
pub fn is_confirmation(status: &str, version: &str) -> (r: bool)
    ensures
        r == confirms(status@, version@),
{
    let expected: String = "ONLINE v".to_owned().concat(version);
    if same(status, expected.as_str()) {
        return true;
    }
    let more: String = expected.concat(" ");
    starts_with(status, more.as_str())
}

/// Tells whether [`bump_patch`] can be asked for the version after this one.
pub fn can_bump_patch(ver: &str) -> (r: bool)
    ensures
        r == can_bump(ver@),
{
    let parts: Vec<String> = split(ver, '.');
    if parts.len() < 3 {
        return true;
    }
    assert(views(parts@)[2] == parts@[2]@);
    match parse_number(parts[2].as_str(), u32::MAX) {
        Some(n) => n < u32::MAX,
        None => true,
    }
}

/// The version after this one.
pub fn bump_patch(ver: &str) -> (r: String)
    requires
        can_bump(ver@),
    ensures
        r@ == bumped(ver@),
{
    let parts: Vec<String> = split(ver, '.');
    if parts.len() < 3 {
        return ver.to_owned().concat(".1");
    }
    assert(views(parts@)[0] == parts@[0]@);
    assert(views(parts@)[1] == parts@[1]@);
    assert(views(parts@)[2] == parts@[2]@);
    let patch: u32 = match parse_number(parts[2].as_str(), u32::MAX) {
        Some(n) => n,
        None => 0,
    };
    let next: String = to_decimal((patch + 1) as u64);
    parts[0].clone().concat(".").concat(parts[1].as_str()).concat(".").concat(next.as_str())
}

/// A bumped version of three components or more has three: the first two are kept and the third
/// is the next patch number.
pub proof fn law_bump_components(version: Seq<char>)
    requires
        split_on(version, '.').len() >= 3,
    ensures
        split_on(bumped(version), '.') == seq![
            split_on(version, '.')[0],
            split_on(version, '.')[1],
            decimal(patch_of(version) + 1),
        ],
{
    reveal_strlit(".");
    let parts = split_on(version, '.');
    let next = decimal(patch_of(version) + 1);
    let dot = seq!['.'];
    law_split_pieces(version, '.');
    law_decimal_reads_back(patch_of(version) + 1);
    assert(!next.contains('.')) by {
        if next.contains('.') {
            let k = choose|k: int| 0 <= k < next.len() && next[k] == '.';
            assert(is_digit(next[k]));
        }
    }
    assert("."@ =~= dot);
    assert(bumped(version) =~= parts[0] + dot + (parts[1] + dot + next));
    law_split_first(parts[0], parts[1] + dot + next, '.');
    law_split_first(parts[1], next, '.');
    law_split_whole(next, '.');
    assert(split_on(bumped(version), '.') =~= seq![parts[0], parts[1], next]);
}

/// Bumping raises the patch number by one, as often as the number fits `u32`.
pub proof fn law_bump_raises_patch(version: Seq<char>)
    requires
        split_on(version, '.').len() >= 3,
        can_bump(version),
    ensures
        patch_of(bumped(version)) == patch_of(version) + 1,
{
    law_bump_components(version);
    law_decimal_reads_back(patch_of(version) + 1);
}

/// The leading word of text is what stands before its first white space.
pub proof fn lemma_leading_word(w: Seq<char>, rest: Seq<char>)
    requires
        forall|i: int| 0 <= i < w.len() ==> !is_white(#[trigger] w[i]),
        rest.len() > 0 ==> is_white(rest.first()),
    ensures
        leading_word(w + rest) == w,
    decreases w.len(),
{
    let s = w + rest;
    if w.len() == 0 {
        assert(s =~= rest);
        assert(leading_word(s) =~= w);
    } else {
        assert(s.drop_first() =~= w.drop_first() + rest);
        assert(forall|i: int| 0 <= i < w.drop_first().len() ==> w.drop_first()[i] == w[i + 1]);
        lemma_leading_word(w.drop_first(), rest);
        assert(seq![w.first()] + w.drop_first() =~= w);
        assert(!is_white(w[0]));
    }
}

/// A status that confirms a version, if that holds no white space and is not empty, reports it.
pub proof fn law_confirmation_reports(status: Seq<char>, version: Seq<char>)
    requires
        confirms(status, version),
        version.len() > 0,
        forall|i: int| 0 <= i < version.len() ==> !is_white(#[trigger] version[i]),
    ensures
        reported_version(status) == Some(version),
{
    reveal_strlit("ONLINE v");
    reveal_strlit(" ");
    let p = online_prefix();
    let expected = p + version;
    let rest = status.skip(expected.len() as int);
    assert(expected.is_prefix_of(status)) by {
        if status != expected {
            assert((expected + " "@).take(expected.len() as int) =~= expected);
            assert(status.take(expected.len() as int) =~= status.take(
                (expected + " "@).len() as int,
            ).take(expected.len() as int));
        }
    }
    assert(status =~= expected + rest);
    assert(p.is_prefix_of(status));
    assert(status.skip(p.len() as int) =~= version + rest);
    if rest.len() > 0 {
        assert(status[expected.len() as int] == (expected + " "@)[expected.len() as int]);
    }
    lemma_leading_word(version, rest);
    assert(!is_white(version[0]));
}

/// What confirms one version confirms no other, as long as neither holds white space.
pub proof fn law_confirmation_is_of_one_version(
    status: Seq<char>,
    version: Seq<char>,
    other: Seq<char>,
)
    requires
        confirms(status, version),
        confirms(status, other),
        version.len() > 0,
        other.len() > 0,
        forall|i: int| 0 <= i < version.len() ==> !is_white(#[trigger] version[i]),
        forall|i: int| 0 <= i < other.len() ==> !is_white(#[trigger] other[i]),
    ensures
        version == other,
{
    law_confirmation_reports(status, version);
    law_confirmation_reports(status, other);
}

/// A status confirms a version exactly if it is `ONLINE v` and the version, and then nothing or a
/// space and anything.
pub proof fn law_confirmation_is_exact(status: Seq<char>, version: Seq<char>, rest: Seq<char>)
    ensures
        confirms("ONLINE v"@ + version, version),
        confirms("ONLINE v"@ + version + seq![' '] + rest, version),
        confirms(status, version) ==> status == "ONLINE v"@ + version || exists|more: Seq<char>|
            status == #[trigger] ("ONLINE v"@ + version + seq![' '] + more),
{
    reveal_strlit("ONLINE v");
    reveal_strlit(" ");
    assert(" "@ =~= seq![' ']);
    let e = "ONLINE v"@ + version;
    let long = e + seq![' '] + rest;
    assert(long.take((e + " "@).len() as int) =~= e + " "@);
    if confirms(status, version) && status != e {
        let more = status.skip((e + " "@).len() as int);
        assert(status =~= e + seq![' '] + more);
    }
}

/// A status states the first word after `ONLINE v`; without that start, or with nothing but white
/// space after it, it states none.
pub proof fn law_status_states_the_first_word(
    white: Seq<char>,
    w: Seq<char>,
    rest: Seq<char>,
    other: Seq<char>,
)
    requires
        forall|i: int| 0 <= i < white.len() ==> is_white(#[trigger] white[i]),
        forall|i: int| 0 <= i < w.len() ==> !is_white(#[trigger] w[i]),
        rest.len() > 0 ==> is_white(rest.first()),
        w.len() == 0 ==> rest.len() == 0,
        !"ONLINE v"@.is_prefix_of(other),
    ensures
        reported_version("ONLINE v"@ + (white + w + rest)) == if w.len() == 0 {
            None
        } else {
            Some(w)
        },
        reported_version(other) is None,
{
    reveal_strlit("ONLINE v");
    let p = "ONLINE v"@;
    let s = p + (white + w + rest);
    assert(p.is_prefix_of(s)) by {
        assert(s.take(p.len() as int) =~= p);
    }
    assert(s.skip(p.len() as int) =~= white + w + rest);
    crate::text_laws::law_first_word_is_the_first(white, w, rest);
}

/// The version after one of three components or more has the first two and the number after the
/// third; a third that is no number, or too large a one, counts as 0. What comes after the third
/// is left out.
pub proof fn law_next_version_counts_on(
    a: Seq<char>,
    b: Seq<char>,
    c: Seq<char>,
    more: Seq<char>,
)
    requires
        !a.contains('.'),
        !b.contains('.'),
        !c.contains('.'),
        more.len() > 0 ==> more[0] == '.',
    ensures
        ({
            let version = a + seq!['.'] + b + seq!['.'] + c + more;
            let n = match number_in(c, u32::MAX as nat) {
                Some(n) => n,
                None => 0,
            };
            &&& bumped(version) == a + seq!['.'] + b + seq!['.'] + decimal(n + 1)
            &&& can_bump(version) <==> n < u32::MAX
        }),
{
    reveal_strlit(".");
    assert("."@ =~= seq!['.']);
    let dot = seq!['.'];
    let version = a + dot + b + dot + c + more;
    assert(version =~= a + dot + (b + dot + (c + more)));
    law_split_first(a, b + dot + (c + more), '.');
    law_split_first(b, c + more, '.');
    if more.len() == 0 {
        assert(c + more =~= c);
        law_split_whole(c, '.');
    } else {
        assert(c + more =~= c + dot + more.drop_first());
        law_split_first(c, more.drop_first(), '.');
    }
    assert(split_on(version, '.')[0] == a);
    assert(split_on(version, '.')[1] == b);
    assert(split_on(version, '.')[2] == c);
    law_split_pieces(more.drop_first(), '.');
}

/// The version after one of fewer than three components is that version and one component more.
pub proof fn law_short_version_gets_longer(a: Seq<char>, b: Seq<char>)
    requires
        !a.contains('.'),
        !b.contains('.'),
    ensures
        bumped(a) == a + seq!['.', '1'],
        bumped(a + seq!['.'] + b) == a + seq!['.'] + b + seq!['.', '1'],
        can_bump(a),
        can_bump(a + seq!['.'] + b),
{
    reveal_strlit(".1");
    assert(".1"@ =~= seq!['.', '1']);
    law_split_whole(a, '.');
    law_split_first(a, b, '.');
    law_split_whole(b, '.');
}

} // verus!
