//! The line of a sketch that states the version of its firmware.
use vstd::prelude::*;
use vstd::string::*;
use crate::number::is_digit;
use crate::outside::{captures, regex_replaced, replace_first};
use crate::text::{occurs_at, opt_view};

verus! {

/// The expression that finds the version and captures it.
pub const VERSION_CAPTURE: &'static str = "#define FIRMWARE_VERSION \"([0-9.]+)\"";

/// The expression that finds the definition of the version.
pub const VERSION_LINE: &'static str = "#define FIRMWARE_VERSION \"[0-9.]+\"";

/// What stands before the version.
pub open spec fn define_head() -> Seq<char> {
    "#define FIRMWARE_VERSION \""@
}

/// A character that a version in a sketch is made of.
pub open spec fn is_version_char(c: char) -> bool {
    is_digit(c) || c == '.'
}

/// Text that can stand as a version in a sketch.
pub open spec fn is_version_text(s: Seq<char>) -> bool {
    s.len() > 0 && forall|i: int| 0 <= i < s.len() ==> is_version_char(#[trigger] s[i])
}

/// How many version characters follow one another in `text` from `from` on.
pub open spec fn version_run(text: Seq<char>, from: int) -> nat
    decreases text.len() - from,
{
    if 0 <= from < text.len() && is_version_char(text[from]) {
        1 + version_run(text, from + 1)
    } else {
        0
    }
}

/// A definition of the version stands in `text` at `i`.
pub open spec fn define_at(text: Seq<char>, i: int) -> bool {
    let from = i + define_head().len();
    let n = version_run(text, from);
    &&& occurs_at(define_head(), text, i)
    &&& n > 0
    &&& from + n < text.len()
    &&& text[from + n] == '"'
}

/// Where the first definition of the version at or after `from` stands.
pub open spec fn define_from(text: Seq<char>, from: int) -> Option<int>
    decreases text.len() - from,
{
    if from < 0 || from >= text.len() {
        None
    } else if define_at(text, from) {
        Some(from)
    } else {
        define_from(text, from + 1)
    }
}

/// The version that `text` defines first.
pub open spec fn version_defined(text: Seq<char>) -> Option<Seq<char>> {
    match define_from(text, 0) {
        Some(i) => {
            let from = i + define_head().len();
            Some(text.subrange(from, from + version_run(text, from)))
        },
        None => None,
    }
}

/// `text` with its first definition of the version replaced by `replacement`.
pub open spec fn define_replaced(text: Seq<char>, replacement: Seq<char>) -> Seq<char> {
    match define_from(text, 0) {
        Some(i) => {
            let from = i + define_head().len();
            text.take(i) + replacement + text.skip(from + version_run(text, from) + 1)
        },
        None => text,
    }
}

/// What stands in `text` before and after its first definition of the version stands in `r` too,
/// at its two ends.
pub open spec fn keeps_around_define(text: Seq<char>, r: Seq<char>) -> bool {
    match define_from(text, 0) {
        Some(i) => {
            let from = i + define_head().len();
            let end = from + version_run(text, from) + 1;
            &&& r.len() >= i + text.len() - end
            &&& text.take(i).is_prefix_of(r)
            &&& text.skip(end).is_suffix_of(r)
        },
        None => r == text,
    }
}

/// The line that defines `version`.
pub open spec fn define_line(version: Seq<char>) -> Seq<char> {
    define_head() + version + "\""@
}

proof fn lemma_run(text: Seq<char>, from: int)
    requires
        0 <= from <= text.len(),
    ensures
        from + version_run(text, from) <= text.len(),
        forall|j: int| from <= j < from + version_run(text, from) ==> is_version_char(text[j]),
        from + version_run(text, from) < text.len() ==> !is_version_char(
            text[from + version_run(text, from)],
        ),
    decreases text.len() - from,
{
    if from < text.len() && is_version_char(text[from]) {
        lemma_run(text, from + 1);
    }
}

proof fn lemma_run_is(text: Seq<char>, from: int, n: nat)
    requires
        0 <= from,
        from + n < text.len(),
        forall|j: int| from <= j < from + n ==> is_version_char(text[j]),
        !is_version_char(text[from + n]),
    ensures
        version_run(text, from) == n,
    decreases n,
{
    if n > 0 {
        assert(is_version_char(text[from]));
        lemma_run_is(text, from + 1, (n - 1) as nat);
    }
}

proof fn lemma_first_define(text: Seq<char>, from: int)
    requires
        0 <= from,
    ensures
        match define_from(text, from) {
            Some(i) => from <= i && define_at(text, i) && forall|k: int|
                from <= k < i ==> !define_at(text, k),
            None => forall|k: int| from <= k ==> !define_at(text, k),
        },
    decreases text.len() - from,
{
    if from < text.len() && !define_at(text, from) {
        lemma_first_define(text, from + 1);
    }
    reveal_strlit("#define FIRMWARE_VERSION \"");
}

proof fn lemma_first_define_is(text: Seq<char>, from: int, i: int)
    requires
        0 <= from <= i,
        define_at(text, i),
        forall|k: int| from <= k < i ==> !define_at(text, k),
    ensures
        define_from(text, from) == Some(i),
    decreases i - from,
{
    reveal_strlit("#define FIRMWARE_VERSION \"");
    if from < i {
        lemma_first_define_is(text, from + 1, i);
    }
}

/// A version that was written into a sketch is the version that the sketch states.
pub proof fn law_version_reads_back(content: Seq<char>, version: Seq<char>)
    requires
        version_defined(content) is Some,
        is_version_text(version),
    ensures
        !version.contains('$'),
        version_defined(define_replaced(content, define_line(version))) == Some(version),
{
    reveal_strlit("#define FIRMWARE_VERSION \"");
    reveal_strlit("\"");
    let head = define_head();
    let h: int = head.len() as int;
    let i = define_from(content, 0)->0;
    lemma_first_define(content, 0);
    lemma_run(content, i + h);
    let end = i + h + version_run(content, i + h) + 1;
    let new = define_replaced(content, define_line(version));
    assert(new =~= content.take(i) + define_line(version) + content.skip(end));
    assert forall|j: int| 0 <= j < i implies new[j] == content[j] by {}
    assert(forall|j: int| 0 <= j < h ==> new[i + j] == head[j]);
    assert(forall|j: int| 0 <= j < version.len() ==> new[i + h + j] == version[j]);
    assert(new[i + h + version.len()] == '"');
    assert(new.subrange(i, i + h) =~= head);
    assert forall|j: int| i + h <= j < i + h + version.len() implies is_version_char(new[j]) by {
        assert(new[j] == version[j - i - h]);
    }
    lemma_run_is(new, i + h, version.len());
    assert(define_at(new, i));
    assert forall|k: int| 0 <= k < i implies !define_at(new, k) by {
        if define_at(new, k) {
            lemma_define_before(content, new, k, i);
        }
    }
    lemma_first_define_is(new, 0, i);
    assert(new.subrange(i + h, i + h + version.len()) =~= version);
    if version.contains('$') {
        let k = choose|k: int| 0 <= k < version.len() && version[k] == '$';
        assert(is_version_char(version[k]));
    }
}

/// A definition before a `#` up to which two texts agree stands in both.
proof fn lemma_define_before(content: Seq<char>, new: Seq<char>, k: int, i: int)
    requires
        0 <= k < i < new.len(),
        i <= content.len(),
        define_at(new, k),
        forall|j: int| 0 <= j < i ==> new[j] == content[j],
        new[i] == '#',
    ensures
        define_at(content, k),
{
    reveal_strlit("#define FIRMWARE_VERSION \"");
    let head = define_head();
    let h: int = head.len() as int;
    assert(forall|j: int| 0 <= j < h ==> new.subrange(k, k + h)[j] == head[j]);
    assert(forall|j: int| 0 <= j < h ==> new[k + j] == #[trigger] head[j]);
    if k + h > i {
        assert(new[k + (i - k)] == head[i - k]);
    }
    let n = version_run(new, k + h);
    lemma_run(new, k + h);
    if k + h + n > i {
        assert(is_version_char(new[i]));
    }
    assert(content[k + h + n] == '"');
    lemma_run_is(content, k + h, n);
    assert(content.subrange(k, k + h) =~= head);
}

/// Where a sketch states no version, none is written into it.
pub proof fn law_no_version_no_change(content: Seq<char>, line: Seq<char>)
    requires
        version_defined(content) is None,
    ensures
        define_replaced(content, line) == content,
{
}

/// The version that a sketch states, if it states one.
pub fn read_firmware_version(content: &str) -> (r: Option<String>)
    ensures
        opt_view(r) == version_defined(content@),
{
    match captures(VERSION_CAPTURE, content) {
        Some(groups) => groups[1].clone(),
        None => None,
    }
}

/// The sketch with `new_version` in place of the version that it states.
///
/// A `$` in the version is taken by the replacement as a reference to a part of the match.
pub fn bump_firmware_version(content: &str, new_version: &str) -> (r: String)
    ensures
        !new_version@.contains('$') ==> r@ == define_replaced(content@, define_line(new_version@)),
        r@ == regex_replaced(
            VERSION_LINE@,
            content@,
            define_line(new_version@),
        ),
        version_defined(content@) is None ==> r@ == content@,
        keeps_around_define(content@, r@),
{
    let line: String = "#define FIRMWARE_VERSION \"".to_owned().concat(new_version).concat("\"");
    proof {
        reveal_strlit("#define FIRMWARE_VERSION \"");
        reveal_strlit("\"");
        if line@.contains('$') {
            let k = choose|k: int| 0 <= k < line@.len() && line@[k] == '$';
            assert(line@[k] == new_version@[k - define_head().len()]);
        }
    }
    replace_first(VERSION_LINE, content, line.as_str())
}

/// The line that defines `v`, a version of digits and dots, stands in `text` at `i`.
pub open spec fn is_stated_at(text: Seq<char>, i: int, v: Seq<char>) -> bool {
    let line = "#define FIRMWARE_VERSION \""@ + v + "\""@;
    &&& v.len() > 0
    &&& forall|k: int| 0 <= k < v.len() ==> ('0' <= #[trigger] v[k] <= '9' || v[k] == '.')
    &&& 0 <= i <= text.len() - line.len()
    &&& text.subrange(i, i + line.len()) == line
}

proof fn lemma_stated_is_defined(text: Seq<char>, i: int, v: Seq<char>)
    requires
        is_stated_at(text, i, v),
    ensures
        define_at(text, i),
        version_run(text, i + define_head().len()) == v.len(),
        text.subrange(i + define_head().len(), i + define_head().len() + v.len()) == v,
{
    reveal_strlit("#define FIRMWARE_VERSION \"");
    reveal_strlit("\"");
    let head = define_head();
    let h: int = head.len() as int;
    let line = head + v + "\""@;
    assert(forall|k: int| 0 <= k < line.len() ==> text[i + k] == #[trigger] line[k]) by {
        assert forall|k: int| 0 <= k < line.len() implies text[i + k] == #[trigger] line[k] by {
            assert(text.subrange(i, i + line.len())[k] == text[i + k]);
        }
    }
    assert forall|j: int| i + h <= j < i + h + v.len() implies is_version_char(text[j]) by {
        assert(text[i + (j - i)] == line[j - i]);
        assert(line[j - i] == v[j - i - h]);
    }
    assert(text[i + (h + v.len())] == line[h + v.len()]);
    assert(text[i + h + v.len()] == '"');
    lemma_run_is(text, i + h, v.len());
    assert forall|k: int| 0 <= k < h implies text.subrange(i, i + h)[k] == head[k] by {
        assert(text[i + k] == line[k]);
    }
    assert(text.subrange(i, i + h) =~= head);
    assert forall|k: int| 0 <= k < v.len() implies text.subrange(i + h, i + h + v.len())[k]
        == v[k] by {
        assert(text[i + (h + k)] == line[h + k]);
    }
    assert(text.subrange(i + h, i + h + v.len()) =~= v);
}

proof fn lemma_defined_is_stated(text: Seq<char>, i: int)
    requires
        define_at(text, i),
    ensures
        is_stated_at(
            text,
            i,
            text.subrange(
                i + define_head().len(),
                i + define_head().len() + version_run(text, i + define_head().len()),
            ),
        ),
{
    reveal_strlit("#define FIRMWARE_VERSION \"");
    reveal_strlit("\"");
    let head = define_head();
    let h: int = head.len() as int;
    let n = version_run(text, i + h);
    let v = text.subrange(i + h, i + h + n);
    let line = head + v + "\""@;
    lemma_run(text, i + h);
    assert forall|k: int| 0 <= k < v.len() implies ('0' <= #[trigger] v[k] <= '9' || v[k]
        == '.') by {
        assert(is_version_char(text[i + h + k]));
    }
    assert forall|k: int| 0 <= k < line.len() implies text.subrange(i, i + line.len())[k]
        == line[k] by {
        if k < h {
            assert(text.subrange(i, i + h)[k] == head[k]);
        }
    }
    assert(text.subrange(i, i + line.len()) =~= line);
}

/// The version of a sketch is the one that its first definition states, whatever stands around it,
/// and replacing the definition keeps all that stands around it.
pub proof fn law_first_definition_counts(
    text: Seq<char>,
    i: int,
    v: Seq<char>,
    replacement: Seq<char>,
)
    requires
        is_stated_at(text, i, v),
        forall|k: int, w: Seq<char>| k < i ==> !#[trigger] is_stated_at(text, k, w),
    ensures
        version_defined(text) == Some(v),
        define_replaced(text, replacement) == text.take(i) + replacement + text.skip(
            i + ("#define FIRMWARE_VERSION \""@ + v + "\""@).len(),
        ),
        keeps_around_define(text, replacement) ==> text.take(i).is_prefix_of(replacement)
            && text.skip(
            i + ("#define FIRMWARE_VERSION \""@ + v + "\""@).len(),
        ).is_suffix_of(replacement),
        define_line(v) == "#define FIRMWARE_VERSION \""@ + v + "\""@,
{
    reveal_strlit("\"");
    lemma_stated_is_defined(text, i, v);
    assert forall|k: int| 0 <= k < i implies !define_at(text, k) by {
        if define_at(text, k) {
            lemma_defined_is_stated(text, k);
        }
    }
    lemma_first_define_is(text, 0, i);
}

/// The version is looked for by an expression that captures it, and replaced by one that does not.
pub proof fn law_version_is_digits_and_dots()
    ensures
        VERSION_CAPTURE@ == "#define FIRMWARE_VERSION \"([0-9.]+)\""@,
        VERSION_LINE@ == "#define FIRMWARE_VERSION \"[0-9.]+\""@,
{
}

/// A sketch that states no version has none, and nothing in it is replaced.
pub proof fn law_no_definition_no_version(text: Seq<char>, replacement: Seq<char>)
    requires
        forall|k: int, w: Seq<char>| !#[trigger] is_stated_at(text, k, w),
    ensures
        version_defined(text) is None,
        define_replaced(text, replacement) == text,
        keeps_around_define(text, replacement) ==> replacement == text,
{
    lemma_first_define(text, 0);
    if define_from(text, 0) is Some {
        lemma_defined_is_stated(text, define_from(text, 0)->0);
    }
}

} // verus!
