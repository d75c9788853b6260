//! What holds of text, numbers and paths.
use vstd::prelude::*;
use vstd::string::*;
use crate::number::{
    decimal, is_digit, law_decimal_reads_back, number_in, value_of, zero_padded,
};
use crate::outside::uppercase;
use crate::paths::{default_sketch_path, file_name_of, is_absolute_path, joined, last_component};
use crate::text::{
    first_word, is_white, law_split_pieces, law_split_whole, occurs_in, split_on, trimmed,
    without_trailing,
};
use crate::topics::{device_of_topic, topic_of, topics_of};
use crate::version::lemma_leading_word;

verus! {

/// There is nothing but white space in the text.
pub open spec fn is_blank(s: Seq<char>) -> bool {
    forall|i: int| 0 <= i < s.len() ==> is_white(#[trigger] s[i])
}

// ---- Text ----

/// White space are the space, the tabulators, the ends of lines and pages, and the spaces of other
/// widths; no other character is.
pub proof fn law_white_space(c: char)
    ensures
        is_white(c) <==> seq![
            '\t',
            '\n',
            '\u{b}',
            '\u{c}',
            '\r',
            ' ',
            '\u{85}',
            '\u{a0}',
            '\u{1680}',
            '\u{2000}',
            '\u{2001}',
            '\u{2002}',
            '\u{2003}',
            '\u{2004}',
            '\u{2005}',
            '\u{2006}',
            '\u{2007}',
            '\u{2008}',
            '\u{2009}',
            '\u{200a}',
            '\u{2028}',
            '\u{2029}',
            '\u{202f}',
            '\u{205f}',
            '\u{3000}',
        ].contains(c),
{
    let all = seq![
        '\t',
        '\n',
        '\u{b}',
        '\u{c}',
        '\r',
        ' ',
        '\u{85}',
        '\u{a0}',
        '\u{1680}',
        '\u{2000}',
        '\u{2001}',
        '\u{2002}',
        '\u{2003}',
        '\u{2004}',
        '\u{2005}',
        '\u{2006}',
        '\u{2007}',
        '\u{2008}',
        '\u{2009}',
        '\u{200a}',
        '\u{2028}',
        '\u{2029}',
        '\u{202f}',
        '\u{205f}',
        '\u{3000}',
    ];
    let n = c as int;
    if is_white(c) {
        let i = if n <= 0xd {
            n - 9
        } else if n == 0x20 {
            5
        } else if n == 0x85 {
            6
        } else if n == 0xa0 {
            7
        } else if n == 0x1680 {
            8
        } else if n <= 0x200a {
            n - 0x2000 + 9
        } else if n == 0x2028 {
            20
        } else if n == 0x2029 {
            21
        } else if n == 0x202f {
            22
        } else if n == 0x205f {
            23
        } else {
            24
        };
        assert(all[i] == c);
    }
}

/// Trimming leaves the part between the white space at the start and the white space at the end,
/// as it is: it begins and ends with the first and the last character that is none.
pub proof fn law_trimming_cuts_the_ends(s: Seq<char>) -> (ends: (int, int))
    ensures
        0 <= ends.0 <= ends.1 <= s.len(),
        trimmed(s) == s.subrange(ends.0, ends.1),
        forall|i: int| 0 <= i < ends.0 ==> is_white(#[trigger] s[i]),
        forall|i: int| ends.1 <= i < s.len() ==> is_white(#[trigger] s[i]),
        ends.0 < ends.1 ==> !is_white(s[ends.0]) && !is_white(s[ends.1 - 1]),
    decreases s.len(),
{
    if s.len() == 0 {
        assert(s.subrange(0, 0) =~= s);
        (0, 0)
    } else if is_white(s.first()) {
        let rest = s.drop_first();
        let (a, b) = law_trimming_cuts_the_ends(rest);
        assert(rest.subrange(a, b) =~= s.subrange(a + 1, b + 1));
        assert forall|i: int| 0 <= i < a + 1 implies is_white(#[trigger] s[i]) by {
            if i > 0 {
                assert(rest[i - 1] == s[i]);
            }
        }
        assert forall|i: int| b + 1 <= i < s.len() implies is_white(#[trigger] s[i]) by {
            assert(rest[i - 1] == s[i]);
        }
        (a + 1, b + 1)
    } else if is_white(s.last()) {
        let rest = s.drop_last();
        let (a, b) = law_trimming_cuts_the_ends(rest);
        assert(rest.subrange(a, b) =~= s.subrange(a, b));
        assert forall|i: int| 0 <= i < a implies is_white(#[trigger] s[i]) by {
            assert(rest[i] == s[i]);
        }
        assert forall|i: int| b <= i < s.len() implies is_white(#[trigger] s[i]) by {
            if i < rest.len() {
                assert(rest[i] == s[i]);
            }
        }
        (a, b)
    } else {
        assert(s.subrange(0, s.len() as int) =~= s);
        (0, s.len() as int)
    }
}

/// Nothing is left of text by trimming exactly if it is blank.
pub proof fn law_trimming_blank_text(s: Seq<char>)
    ensures
        trimmed(s).len() == 0 <==> is_blank(s),
{
    let (a, b) = law_trimming_cuts_the_ends(s);
    if a < b {
        assert(!is_white(s[a]));
    } else {
        assert forall|i: int| 0 <= i < s.len() implies is_white(#[trigger] s[i]) by {
            if i < a {
            } else {
                assert(b <= i);
            }
        }
    }
}

/// Text is found wherever it stands between two other texts, and only there.
pub proof fn law_search_finds_what_is_there(needle: Seq<char>, hay: Seq<char>)
    ensures
        occurs_in(needle, hay) <==> exists|a: Seq<char>, b: Seq<char>|
            hay == #[trigger] (a + needle + b),
{
    if occurs_in(needle, hay) {
        let i = choose|i: int| crate::text::occurs_at(needle, hay, i);
        let a = hay.take(i);
        let b = hay.skip(i + needle.len());
        assert(hay =~= a + needle + b);
    }
    if exists|a: Seq<char>, b: Seq<char>| hay == #[trigger] (a + needle + b) {
        let (a, b) = choose|a: Seq<char>, b: Seq<char>| hay == #[trigger] (a + needle + b);
        assert(hay.subrange(a.len() as int, (a.len() + needle.len()) as int) =~= needle);
        assert(crate::text::occurs_at(needle, hay, a.len() as int));
    }
}

/// The first word stands between white space, or nothing, before it and white space or the end
/// after it; blank text has none.
pub proof fn law_first_word_is_the_first(white: Seq<char>, word: Seq<char>, rest: Seq<char>)
    requires
        is_blank(white),
        forall|i: int| 0 <= i < word.len() ==> !is_white(#[trigger] word[i]),
        rest.len() > 0 ==> is_white(rest.first()),
        word.len() == 0 ==> rest.len() == 0,
    ensures
        first_word(white + word + rest) == if word.len() == 0 {
            None
        } else {
            Some(word)
        },
    decreases white.len(),
{
    let s = white + word + rest;
    if white.len() > 0 {
        assert(is_white(white[0]));
        assert(s.drop_first() =~= white.drop_first() + word + rest);
        assert forall|i: int| 0 <= i < white.drop_first().len() implies is_white(
            #[trigger] white.drop_first()[i],
        ) by {
            assert(white[i + 1] == white.drop_first()[i]);
        }
        law_first_word_is_the_first(white.drop_first(), word, rest);
    } else if word.len() > 0 {
        assert(s =~= word + rest);
        assert(!is_white(word[0]));
        lemma_leading_word(word, rest);
    } else {
        assert(s.len() == 0);
    }
}

/// Only the occurrences of the character at the end go.
pub proof fn law_trailing_characters_go(s: Seq<char>, c: char)
    ensures
        s.len() == 0 || s.last() != c ==> without_trailing(s, c) == s,
        without_trailing(s.push(c), c) == without_trailing(s, c),
{
    assert(s.push(c).drop_last() =~= s);
}

/// A piece put after text with a separator between them comes out as the last piece.
pub proof fn law_split_last(a: Seq<char>, b: Seq<char>, sep: char)
    requires
        !b.contains(sep),
    ensures
        split_on(a + seq![sep] + b, sep) == split_on(a, sep).push(b),
    decreases b.len(),
{
    let s = a + seq![sep] + b;
    if b.len() == 0 {
        assert(s.drop_last() =~= a);
        assert(b =~= Seq::<char>::empty());
    } else {
        let front = b.drop_last();
        if front.contains(sep) {
            let k = choose|k: int| 0 <= k < front.len() && front[k] == sep;
            assert(b[k] == sep);
        }
        law_split_last(a, front, sep);
        assert(b[b.len() - 1] != sep);
        assert(s.drop_last() =~= a + seq![sep] + front);
        assert(front.push(b.last()) =~= b);
        assert(split_on(a, sep).push(front).drop_last() =~= split_on(a, sep));
    }
}

// ---- Numbers ----

/// Digits are read from left to right, each worth ten times the one after it.
pub proof fn law_digits_are_worth_tens(s: Seq<char>, c: char)
    requires
        '0' <= c <= '9',
    ensures
        value_of(Seq::empty()) == 0,
        value_of(s.push(c)) == 10 * value_of(s) + (c as nat - '0' as nat),
        is_digit(c),
{
    assert(s.push(c).drop_last() =~= s);
}

/// A decimal notation has no more digits than it needs.
pub proof fn law_decimal_is_shortest(n: nat)
    ensures
        decimal(n).len() == 1 || decimal(n)[0] != '0',
        n == 0 ==> decimal(n) == seq!['0'],
        n > 0 ==> decimal(n)[0] != '0',
    decreases n,
{
    if n < 10 {
        assert(decimal(n)[0] as nat == 48 + n);
        assert('0' as nat == 48);
        if n == 0 {
            assert(decimal(n) =~= seq!['0']);
        }
    } else {
        law_decimal_is_shortest(n / 10);
        law_decimal_reads_back(n / 10);
        assert(decimal(n)[0] == decimal(n / 10)[0]);
    }
}

/// Text is a number exactly if it is digits, at least one, after at most one `+`, and the value
/// is not above the limit; the number is the value.
pub proof fn law_numbers_are_digits(digits: Seq<char>, limit: nat)
    requires
        digits.len() > 0,
        forall|i: int| 0 <= i < digits.len() ==> '0' <= #[trigger] digits[i] <= '9',
    ensures
        number_in(digits, limit) == if value_of(digits) <= limit {
            Some(value_of(digits))
        } else {
            None
        },
        number_in(seq!['+'] + digits, limit) == number_in(digits, limit),
        number_in(Seq::empty(), limit) is None,
        number_in(seq!['+'], limit) is None,
{
    assert(digits.first() == digits[0]);
    assert forall|i: int| 0 <= i < digits.len() implies is_digit(#[trigger] digits[i]) by {}
    assert((seq!['+'] + digits).drop_first() =~= digits);
    assert(seq!['+'].drop_first().len() == 0);
}

/// Text with a character that is no digit, but for a `+` at its start, is no number.
pub proof fn law_other_text_is_no_number(s: Seq<char>, limit: nat, i: int)
    requires
        0 <= i < s.len(),
        !('0' <= s[i] <= '9'),
        i == 0 ==> s[i] != '+',
    ensures
        number_in(s, limit) is None,
{
    if s.first() == '+' {
        assert(s.drop_first()[i - 1] == s[i]);
    }
    assert(!is_digit(s[i]));
}

/// Padding puts zeros before the text, as many as are missing, and changes nothing else.
pub proof fn law_padding_is_of_zeros(s: Seq<char>, width: nat)
    ensures
        s.is_suffix_of(zero_padded(s, width)),
        zero_padded(s, width).len() == if s.len() >= width {
            s.len()
        } else {
            width
        },
        forall|i: int|
            0 <= i < zero_padded(s, width).len() - s.len() ==> #[trigger] zero_padded(s, width)[i]
                == '0',
{
    let p = zero_padded(s, width);
    assert(p.subrange(p.len() - s.len(), p.len() as int) =~= s);
}

// ---- Paths ----

/// A name is put after a root with one slash between them, unless there is one already or there is
/// no root; a name that begins with a slash stands for itself.
pub proof fn law_joining_puts_one_slash(root: Seq<char>, name: Seq<char>)
    requires
        name.len() == 0 || name[0] != '/',
    ensures
        joined(Seq::empty(), name) == name,
        root.len() > 0 && root.last() != '/' ==> joined(root, name) == root + seq!['/'] + name,
        joined(root.push('/'), name) == root + seq!['/'] + name,
        joined(root, seq!['/'] + name) == seq!['/'] + name,
        is_absolute_path(seq!['/'] + name),
        !is_absolute_path(name),
{
    reveal_strlit("/");
    assert("/"@ =~= seq!['/']);
    assert(root.push('/') + name =~= root + seq!['/'] + name);
}

/// The last component of a joined path is the name that was joined.
pub proof fn law_joined_name_is_last(root: Seq<char>, name: Seq<char>)
    requires
        name.len() > 0,
        !name.contains('/'),
        name != seq!['.'],
        name != seq!['.', '.'],
    ensures
        file_name_of(joined(root, name)) == Some(name),
{
    reveal_strlit("/");
    reveal_strlit(".");
    reveal_strlit("..");
    assert("/"@ =~= seq!['/']);
    assert("."@ =~= seq!['.']);
    assert(".."@ =~= seq!['.', '.']);
    assert(name[0] != '/') by {
        if name[0] == '/' {
            assert(name.contains('/'));
        }
    }
    let p = joined(root, name);
    if root.len() == 0 {
        law_split_whole(name, '/');
    } else if root.last() == '/' {
        assert(p =~= root.drop_last() + seq!['/'] + name);
        law_split_last(root.drop_last(), name, '/');
    } else {
        law_split_last(root, name, '/');
    }
    assert(split_on(p, '/').last() == name);
}

/// Slashes and `.` at the end of a path do not change its last component; after `..`, in the empty
/// path and in the root there is none.
pub proof fn law_path_ends(p: Seq<char>)
    ensures
        file_name_of(p.push('/')) == file_name_of(p),
        file_name_of(p + seq!['/', '.']) == file_name_of(p),
        file_name_of(p + seq!['/', '.', '.']) is None,
        file_name_of(Seq::empty()) is None,
        file_name_of(seq!['/']) is None,
{
    reveal_strlit(".");
    reveal_strlit("..");
    assert("."@ =~= seq!['.']);
    assert(".."@ =~= seq!['.', '.']);
    let e = Seq::<char>::empty();
    reveal_with_fuel(last_component, 3);
    assert(p.push('/') =~= p + seq!['/'] + e);
    law_split_last(p, e, '/');
    assert(split_on(p, '/').push(e).drop_last() =~= split_on(p, '/'));
    let d = seq!['.'];
    assert(p + seq!['/', '.'] =~= p + seq!['/'] + d);
    assert(!d.contains('/'));
    law_split_last(p, d, '/');
    assert(split_on(p, '/').push(d).drop_last() =~= split_on(p, '/'));
    let dd = seq!['.', '.'];
    assert(p + seq!['/', '.', '.'] =~= p + seq!['/'] + dd);
    assert(!dd.contains('/'));
    law_split_last(p, dd, '/');
    assert(split_on(e, '/') =~= seq![e]);
    assert(seq![e].drop_last() =~= Seq::<Seq<char>>::empty());
    assert(file_name_of(e) is None);
    assert(seq!['/'] =~= e.push('/'));
    law_split_last(e, e, '/');
    assert(e.push('/') =~= e + seq!['/'] + e);
    assert(split_on(e, '/').push(e).drop_last() =~= split_on(e, '/'));
}

/// A last component is a piece of the path between slashes, not empty and neither `.` nor `..`.
pub proof fn law_last_component_is_a_piece(p: Seq<char>)
    requires
        file_name_of(p) is Some,
    ensures
        file_name_of(p)->0.len() > 0,
        !file_name_of(p)->0.contains('/'),
        file_name_of(p)->0 != seq!['.'],
        file_name_of(p)->0 != seq!['.', '.'],
        split_on(p, '/').contains(file_name_of(p)->0),
{
    reveal_strlit(".");
    reveal_strlit("..");
    assert("."@ =~= seq!['.']);
    assert(".."@ =~= seq!['.', '.']);
    law_split_pieces(p, '/');
    lemma_last_component(split_on(p, '/'));
    let k = choose|k: int|
        0 <= k < split_on(p, '/').len() && split_on(p, '/')[k] == file_name_of(p)->0;
    assert(!split_on(p, '/')[k].contains('/'));
}

proof fn lemma_last_component(parts: Seq<Seq<char>>)
    ensures
        last_component(parts) is Some ==> parts.contains(last_component(parts)->0)
            && last_component(parts)->0.len() > 0 && last_component(parts)->0 != "."@,
    decreases parts.len(),
{
    if parts.len() > 0 {
        lemma_last_component(parts.drop_last());
        if parts.last().len() == 0 || parts.last() == "."@ {
            if last_component(parts) is Some {
                let c = last_component(parts)->0;
                let k = choose|k: int|
                    0 <= k < parts.drop_last().len() && parts.drop_last()[k] == c;
                assert(parts[k] == c);
            }
        } else {
            assert(parts[parts.len() - 1] == parts.last());
        }
    }
}

/// The folder of a device without one of its own is named after its id in upper case, and stands
/// below the root.
pub proof fn law_default_folder_is_named_after_the_id(root: Seq<char>, id: Seq<char>)
    requires
        root.len() > 0,
        root.last() != '/',
        !uppercase(id).contains('/'),
    ensures
        default_sketch_path(root, id) == root + "/ESP32_"@ + uppercase(id) + "_MQTT_TLS"@,
        file_name_of(default_sketch_path(root, id)) == Some(
            "ESP32_"@ + uppercase(id) + "_MQTT_TLS"@,
        ),
        default_sketch_path(Seq::empty(), id) == "ESP32_"@ + uppercase(id) + "_MQTT_TLS"@,
        default_sketch_path(root.push('/'), id) == default_sketch_path(root, id),
{
    reveal_strlit("/");
    reveal_strlit("ESP32_");
    reveal_strlit("/ESP32_");
    reveal_strlit("_MQTT_TLS");
    let u = uppercase(id);
    let name = "ESP32_"@ + u + "_MQTT_TLS"@;
    assert("/"@ =~= seq!['/']);
    assert("/ESP32_"@ =~= seq!['/'] + "ESP32_"@);
    assert(name[0] == 'E');
    assert(!name.contains('/')) by {
        if name.contains('/') {
            let k = choose|k: int| 0 <= k < name.len() && name[k] == '/';
            if k >= 6 && k < 6 + u.len() {
                assert(u[k - 6] == '/');
            }
        }
    }
    law_joining_puts_one_slash(root, name);
    law_joined_name_is_last(root, name);
    assert(root + seq!['/'] + name =~= root + "/ESP32_"@ + u + "_MQTT_TLS"@);
}

// ---- Topics ----

/// The topics of a device are below `solar`, then its id, then what they are for.
pub proof fn law_topics_are_below_solar(id: Seq<char>, purpose: Seq<char>)
    ensures
        topic_of(id, purpose) == "solar/"@ + id + "/"@ + purpose,
        topics_of(id).cmd == "solar/"@ + id + "/cmd"@,
        topics_of(id).status == "solar/"@ + id + "/status"@,
        topics_of(id).ota == "solar/"@ + id + "/ota"@,
{
    reveal_strlit("/");
    reveal_strlit("cmd");
    reveal_strlit("status");
    reveal_strlit("ota");
    reveal_strlit("/cmd");
    reveal_strlit("/status");
    reveal_strlit("/ota");
    assert("/cmd"@ =~= "/"@ + "cmd"@);
    assert("/status"@ =~= "/"@ + "status"@);
    assert("/ota"@ =~= "/"@ + "ota"@);
    assert(topics_of(id).cmd =~= "solar/"@ + id + "/cmd"@);
    assert(topics_of(id).status =~= "solar/"@ + id + "/status"@);
    assert(topics_of(id).ota =~= "solar/"@ + id + "/ota"@);
}

/// The device of a topic is what stands between the first two slashes; a topic with fewer has none.
pub proof fn law_device_is_between_slashes(a: Seq<char>, id: Seq<char>, rest: Seq<char>)
    requires
        !a.contains('/'),
        !id.contains('/'),
    ensures
        device_of_topic(a + seq!['/'] + id + seq!['/'] + rest) == Some(id),
        device_of_topic(a + seq!['/'] + id) is None,
        device_of_topic(a) is None,
{
    let slash = seq!['/'];
    assert(a + slash + id + slash + rest =~= a + slash + (id + slash + rest));
    crate::text::law_split_first(a, id + slash + rest, '/');
    crate::text::law_split_first(id, rest, '/');
    law_split_pieces(rest, '/');
    crate::text::law_split_first(a, id, '/');
    law_split_whole(id, '/');
    law_split_whole(a, '/');
}

} // verus!
