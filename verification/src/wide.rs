//! Text as the platform takes it: UTF-16 code units, a string ended by a zero
//! unit, and a list of such strings ended by one more zero unit.

use vstd::prelude::*;

verus! {

/// The UTF-16 code units of one character: the character itself where it fits
/// in one unit, a high and a low surrogate where it does not.
pub open spec fn units_of(c: char) -> Seq<u16> {
    let code = c as u32;
    if code < 0x10000 {
        seq![code as u16]
    } else {
        seq![
            (0xD800 + (code - 0x10000) / 0x400) as u16,
            (0xDC00 + (code - 0x10000) % 0x400) as u16,
        ]
    }
}

/// The UTF-16 code units of a text, character by character.
pub open spec fn utf16(text: Seq<char>) -> Seq<u16>
    decreases text.len(),
{
    if text.len() == 0 {
        Seq::empty()
    } else {
        units_of(text.first()) + utf16(text.drop_first())
    }
}

/// Whether a text holds the character zero, which ends a string of the
/// platform and so cannot stand inside one.
pub open spec fn has_nul(text: Seq<char>) -> bool {
    exists|i: int| 0 <= i < text.len() && text[i] as u32 == 0
}

/// A text as a string of the platform: its UTF-16 code units and a zero unit.
pub open spec fn wide(text: Seq<char>) -> Seq<u16> {
    utf16(text).push(0)
}

/// The characters of a text that may be missing.
pub open spec fn optional_text(text: Option<&str>) -> Option<Seq<char>> {
    match text {
        Some(text) => Some(text@),
        None => None,
    }
}

/// The code units of two texts, one after the other, are those of the texts
/// joined.
pub proof fn lemma_utf16_concat(a: Seq<char>, b: Seq<char>)
    ensures
        utf16(a + b) == utf16(a) + utf16(b),
    decreases a.len(),
{
    if a.len() == 0 {
        assert(a + b =~= b);
        assert(utf16(a) + utf16(b) =~= utf16(b));
    } else {
        lemma_utf16_concat(a.drop_first(), b);
        assert((a + b).drop_first() =~= a.drop_first() + b);
        assert((a + b).first() == a.first());
        assert(utf16(a + b) =~= utf16(a) + utf16(b));
    }
}

proof fn lemma_utf16_push(text: Seq<char>, c: char)
    ensures
        utf16(text.push(c)) == utf16(text) + units_of(c),
{
    let one = seq![c];
    assert(text.push(c) =~= text + one);
    lemma_utf16_concat(text, one);
    assert(one.drop_first() =~= Seq::<char>::empty());
    assert(utf16(one.drop_first()) =~= Seq::<u16>::empty());
    assert(utf16(one) =~= units_of(c));
}

/// What std's `String::push` does: it appends the character to the end of the
/// string.
pub assume_specification[ String::push ](text: &mut String, c: char)
    ensures
        final(text)@ == old(text)@.push(c),
;

/// What std's `char::from_u32` returns: the character with that scalar value,
/// or nothing where the number is a surrogate or lies above the last code
/// point.
pub assume_specification[ char::from_u32 ](i: u32) -> (r: Option<char>)
    ensures
        r == (if i <= 0xD7FF || (0xE000 <= i && i <= 0x10FFFF) {
            Some(i as char)
        } else {
            None::<char>
        }),
;

/// Appends the code units of `text` to `units` and tells whether the text was
/// free of the character zero. Where it was not, nothing is said of `units`.
fn append_utf16(units: &mut Vec<u16>, text: &str) -> (whole: bool)
    ensures
        whole == !has_nul(text@),
        whole ==> final(units)@ == old(units)@ + utf16(text@),
{
    let ghost before = units@;
    for c in it: text.chars()
        invariant
            it.seq() == text@,
            units@ == before + utf16(text@.take(it.index() as int)),
            !has_nul(text@.take(it.index() as int)),
    {
        let ghost done = text@.take(it.index() as int);
        proof {
            assert(text@.take(it.index() + 1) =~= done.push(c));
            lemma_utf16_push(done, c);
            vstd::utf8::char_is_scalar(c);
        }
        let code: u32 = c as u32;
        if code == 0 {
            return false;
        }
        if code < 0x10000 {
            units.push(code as u16);
        } else {
            let rest: u32 = code - 0x10000;
            units.push((0xD800 + rest / 0x400) as u16);
            units.push((0xDC00 + rest % 0x400) as u16);
        }
        proof {
            assert(units@ =~= before + (utf16(done) + units_of(c)));
            assert forall|i: int| 0 <= i < done.push(c).len() implies done.push(c)[i] as u32
                != 0 by {
                if i < done.len() {
                    assert(done[i] as u32 != 0);
                }
            }
        }
    }
    proof {
        assert(text@.take(text@.len() as int) =~= text@);
    }
    true
}

/// The units of a text as a string of the platform, or nothing where the text
/// holds the character zero.
pub fn encode_wide(text: &str) -> (r: Option<Vec<u16>>)
    ensures
        match r {
            Some(units) => !has_nul(text@) && units@ == wide(text@),
            None => has_nul(text@),
        },
{
    let mut units: Vec<u16> = Vec::new();
    if append_utf16(&mut units, text) {
        units.push(0);
        proof {
            assert(units@ =~= wide(text@));
        }
        Some(units)
    } else {
        None
    }
}

/// The strings of a list, each with its zero unit, one after the other.
pub open spec fn joined(names: Seq<Seq<char>>) -> Seq<u16>
    decreases names.len(),
{
    if names.len() == 0 {
        Seq::empty()
    } else {
        wide(names.first()) + joined(names.drop_first())
    }
}

/// A list of names as the platform takes it: each name as a string with its
/// zero unit, and one more zero unit after the last.
pub open spec fn wide_list(names: Seq<Seq<char>>) -> Seq<u16> {
    joined(names).push(0)
}

/// Whether every name of a list can stand in a list of the platform: none is
/// empty, which would end the list, and none holds the character zero.
pub open spec fn listable(names: Seq<Seq<char>>) -> bool {
    forall|i: int| 0 <= i < names.len() ==> (#[trigger] names[i]).len() > 0 && !has_nul(names[i])
}

proof fn lemma_joined_push(names: Seq<Seq<char>>, name: Seq<char>)
    ensures
        joined(names.push(name)) == joined(names) + wide(name),
    decreases names.len(),
{
    if names.len() == 0 {
        assert(names.push(name).drop_first() =~= Seq::<Seq<char>>::empty());
        assert(joined(names.push(name).drop_first()) =~= Seq::<u16>::empty());
        assert(joined(names.push(name)) =~= joined(names) + wide(name));
    } else {
        lemma_joined_push(names.drop_first(), name);
        assert(names.push(name).drop_first() =~= names.drop_first().push(name));
        assert(names.push(name).first() == names.first());
        assert(joined(names.push(name)) =~= joined(names) + wide(name));
    }
}

/// The units of a list of names as the platform takes it, or nothing where a
/// name is empty or holds the character zero.
pub fn encode_wide_list(names: &Vec<&str>) -> (r: Option<Vec<u16>>)
    ensures
        match r {
            Some(units) => listable(names.deep_view()) && units@ == wide_list(names.deep_view()),
            None => !listable(names.deep_view()),
        },
{
    let ghost all = names.deep_view();
    let mut units: Vec<u16> = Vec::new();
    let mut k: usize = 0;
    while k < names.len()
        invariant
            k <= names.len(),
            all == names.deep_view(),
            units@ == joined(all.take(k as int)),
            listable(all.take(k as int)),
        decreases names.len() - k,
    {
        let name: &str = names[k];
        proof {
            assert(all[k as int] == name@);
            assert(all.take(k + 1) =~= all.take(k as int).push(name@));
            lemma_joined_push(all.take(k as int), name@);
        }
        if name.is_empty() {
            return None;
        }
        if !append_utf16(&mut units, name) {
            return None;
        }
        units.push(0);
        proof {
            assert(units@ =~= joined(all.take(k as int)) + wide(name@));
        }
        k = k + 1;
    }
    proof {
        assert(all.take(k as int) =~= all);
    }
    units.push(0);
    Some(units)
}

/// How many units stand before the first zero unit; all of them where there
/// is none.
pub open spec fn text_len(units: Seq<u16>) -> nat
    decreases units.len(),
{
    if units.len() == 0 || units[0] == 0 {
        0
    } else {
        1 + text_len(units.drop_first())
    }
}

/// The units of a string of the platform without what ends it: those before
/// the first zero unit.
pub open spec fn until_nul(units: Seq<u16>) -> Seq<u16> {
    units.take(text_len(units) as int)
}

proof fn lemma_text_len(units: Seq<u16>, n: int)
    requires
        0 <= n <= units.len(),
        forall|j: int| 0 <= j < n ==> units[j] != 0,
        n == units.len() || units[n] == 0,
    ensures
        text_len(units) == n,
    decreases units.len(),
{
    if n > 0 {
        let rest = units.drop_first();
        assert(units[0] != 0);
        assert forall|j: int| 0 <= j < n - 1 implies rest[j] != 0 by {
            assert(rest[j] == units[j + 1]);
        }
        lemma_text_len(rest, n - 1);
    }
}

/// Whether a unit is a high surrogate, the first half of a pair.
pub open spec fn is_high(unit: u16) -> bool {
    0xD800 <= unit <= 0xDBFF
}

/// Whether a unit is a low surrogate, the second half of a pair.
pub open spec fn is_low(unit: u16) -> bool {
    0xDC00 <= unit <= 0xDFFF
}

/// Whether the units begin with a high surrogate and a low one after it.
pub open spec fn begins_with_pair(units: Seq<u16>) -> bool {
    units.len() >= 2 && is_high(units[0]) && is_low(units[1])
}

/// The character that the units begin with: that of a surrogate pair, that of
/// a unit which is no surrogate, and the replacement character for a
/// surrogate that has no partner.
pub open spec fn first_char(units: Seq<u16>) -> char
    recommends
        units.len() > 0,
{
    if begins_with_pair(units) {
        (0x10000 + (units[0] - 0xD800) * 0x400 + (units[1] - 0xDC00)) as char
    } else if is_high(units[0]) || is_low(units[0]) {
        '\u{FFFD}'
    } else {
        units[0] as char
    }
}

/// The text that UTF-16 code units stand for, with the replacement character
/// in place of each surrogate that has no partner.
pub open spec fn decode_utf16(units: Seq<u16>) -> Seq<char>
    decreases units.len(),
{
    if units.len() == 0 {
        Seq::empty()
    } else if begins_with_pair(units) {
        seq![first_char(units)] + decode_utf16(units.skip(2))
    } else {
        seq![first_char(units)] + decode_utf16(units.drop_first())
    }
}

/// The text of the units from `from` up to `end`.
fn decode_units(units: &Vec<u16>, from: usize, end: usize) -> (text: String)
    requires
        from <= end <= units.len(),
    ensures
        text@ == decode_utf16(units@.subrange(from as int, end as int)),
{
    let ghost all = units@.subrange(from as int, end as int);
    let mut text = String::new();
    let mut i: usize = from;
    proof {
        assert(all.skip(0) =~= all);
        assert(text@ + decode_utf16(all) =~= decode_utf16(all));
    }
    while i < end
        invariant
            from <= i <= end <= units.len(),
            all == units@.subrange(from as int, end as int),
            decode_utf16(all) == text@ + decode_utf16(all.skip(i - from)),
        decreases end - i,
    {
        let ghost rest = all.skip(i - from);
        let unit: u16 = units[i];
        proof {
            assert(rest[0] == unit);
        }
        if 0xD800 <= unit && unit <= 0xDBFF && i + 1 < end && 0xDC00 <= units[i + 1] && units[i
            + 1] <= 0xDFFF {
            let low: u16 = units[i + 1];
            proof {
                assert(rest[1] == low);
                assert(rest.skip(2) =~= all.skip(i + 2 - from));
            }
            let code: u32 = 0x10000 + (unit as u32 - 0xD800) * 0x400 + (low as u32 - 0xDC00);
            match char::from_u32(code) {
                Some(c) => text.push(c),
                None => text.push('\u{FFFD}'),
            }
            i = i + 2;
        } else {
            proof {
                assert(rest.drop_first() =~= all.skip(i + 1 - from));
                assert(!begins_with_pair(rest)) by {
                    if rest.len() >= 2 {
                        assert(rest[1] == units[i + 1]);
                    }
                }
            }
            match char::from_u32(unit as u32) {
                Some(c) => text.push(c),
                None => text.push('\u{FFFD}'),
            }
            i = i + 1;
        }
        proof {
            assert(decode_utf16(all) =~= text@ + decode_utf16(all.skip(i - from)));
        }
    }
    proof {
        assert(all.skip(end - from) =~= Seq::<u16>::empty());
        assert(decode_utf16(all) =~= text@);
    }
    text
}

/// Where the first zero unit stands; the length where there is none.
fn find_nul(units: &Vec<u16>, from: usize) -> (at: usize)
    requires
        from <= units.len(),
    ensures
        at == from + text_len(units@.skip(from as int)),
        at <= units.len(),
{
    let mut at: usize = from;
    while at < units.len() && units[at] != 0
        invariant
            from <= at <= units.len(),
            forall|j: int| from <= j < at ==> units[j] != 0,
        decreases units.len() - at,
    {
        at = at + 1;
    }
    proof {
        let rest = units@.skip(from as int);
        assert forall|j: int| 0 <= j < at - from implies rest[j] != 0 by {
            assert(rest[j] == units[from + j]);
        }
        lemma_text_len(rest, at - from);
    }
    at
}

/// The text of a string of the platform: what its units before the first zero
/// unit stand for.
pub fn decode_wide(units: &Vec<u16>) -> (text: String)
    ensures
        text@ == decode_utf16(until_nul(units@)),
{
    let end = find_nul(units, 0);
    proof {
        assert(units@.skip(0) =~= units@);
        assert(units@.subrange(0, end as int) =~= units@.take(end as int));
    }
    decode_units(units, 0, end)
}

/// The texts of a list of the platform: string after string, up to the first
/// empty one or to the end of the units.
pub open spec fn list_texts(units: Seq<u16>) -> Seq<Seq<char>>
    decreases units.len(),
{
    let n = text_len(units);
    if n == 0 {
        Seq::empty()
    } else if n >= units.len() {
        seq![decode_utf16(units)]
    } else {
        seq![decode_utf16(units.take(n as int))] + list_texts(units.skip(n as int + 1))
    }
}

/// The texts of a list of the platform.
pub fn decode_wide_list(units: &Vec<u16>) -> (names: Vec<String>)
    ensures
        names.deep_view() == list_texts(units@),
{
    let mut names: Vec<String> = Vec::new();
    let mut from: usize = 0;
    let mut at: usize = find_nul(units, 0);
    proof {
        assert(units@.skip(0) =~= units@);
        assert(names.deep_view() + list_texts(units@) =~= list_texts(units@));
    }
    while at > from
        invariant
            from <= at <= units.len(),
            at == from + text_len(units@.skip(from as int)),
            list_texts(units@) == names.deep_view() + list_texts(units@.skip(from as int)),
        decreases units.len() - from,
    {
        let ghost rest = units@.skip(from as int);
        let ghost before = names.deep_view();
        let name = decode_units(units, from, at);
        names.push(name);
        proof {
            assert(names.deep_view() =~= before.push(name@));
            assert(rest.take(at - from) =~= units@.subrange(from as int, at as int));
        }
        if at < units.len() {
            proof {
                assert(rest.skip(at - from + 1) =~= units@.skip(at + 1));
            }
            from = at + 1;
            at = find_nul(units, from);
        } else {
            proof {
                assert(rest.take(at - from) =~= rest);
                assert(units@.skip(at as int) =~= Seq::<u16>::empty());
            }
            from = at;
        }
        proof {
            assert(list_texts(units@) =~= names.deep_view() + list_texts(
                units@.skip(from as int),
            ));
        }
    }
    proof {
        assert(list_texts(units@) =~= names.deep_view());
    }
    names
}

/// The code units of a text hold at least one unit for each character.
pub proof fn lemma_utf16_len(text: Seq<char>)
    ensures
        utf16(text).len() >= text.len(),
    decreases text.len(),
{
    if text.len() > 0 {
        lemma_utf16_len(text.drop_first());
    }
}

/// The code units of a text without the character zero hold no zero unit.
pub proof fn lemma_utf16_no_zero(text: Seq<char>)
    requires
        !has_nul(text),
    ensures
        forall|i: int| 0 <= i < utf16(text).len() ==> utf16(text)[i] != 0,
    decreases text.len(),
{
    if text.len() > 0 {
        let rest = text.drop_first();
        assert(text[0] as u32 != 0);
        assert forall|i: int| 0 <= i < rest.len() implies rest[i] as u32 != 0 by {
            assert(rest[i] == text[i + 1]);
        }
        lemma_utf16_no_zero(rest);
        vstd::utf8::char_is_scalar(text.first());
        let head = units_of(text.first());
        assert forall|i: int| 0 <= i < utf16(text).len() implies utf16(text)[i] != 0 by {
            if i >= head.len() {
                assert(utf16(text)[i] == utf16(rest)[i - head.len()]);
            }
        }
    }
}

/// A string of the platform gives back the code units of its text, whatever
/// stands after its zero unit.
pub proof fn lemma_until_nul_wide(text: Seq<char>, tail: Seq<u16>)
    requires
        !has_nul(text),
    ensures
        text_len(wide(text) + tail) == utf16(text).len(),
        until_nul(wide(text) + tail) == utf16(text),
        (wide(text) + tail).skip(utf16(text).len() as int + 1) == tail,
{
    let units = wide(text) + tail;
    let n = utf16(text).len() as int;
    lemma_utf16_no_zero(text);
    assert forall|j: int| 0 <= j < n implies units[j] != 0 by {
        assert(units[j] == utf16(text)[j]);
    }
    assert(units[n] == 0);
    lemma_text_len(units, n);
    assert(units.take(n) =~= utf16(text));
    assert(units.skip(n + 1) =~= tail);
}

/// Decoding the code units of a text gives the text back.
pub proof fn lemma_decode_utf16(text: Seq<char>)
    ensures
        decode_utf16(utf16(text)) == text,
    decreases text.len(),
{
    if text.len() == 0 {
        assert(decode_utf16(utf16(text)) =~= text);
    } else {
        let c = text.first();
        let rest = text.drop_first();
        let units = utf16(text);
        let code = c as u32;
        lemma_decode_utf16(rest);
        vstd::utf8::char_is_scalar(c);
        if code < 0x10000 {
            assert(units[0] == code as u16);
            assert(!is_high(units[0]) && !is_low(units[0]));
            assert(units.drop_first() =~= utf16(rest));
            vstd::utf8::char_u32_cast(c, code);
            assert(units[0] as char == c);
        } else {
            let offset = (code - 0x10000) as int;
            assert(units[0] == (0xD800 + offset / 0x400) as u16);
            assert(units[1] == (0xDC00 + offset % 0x400) as u16);
            assert(begins_with_pair(units));
            assert(units.skip(2) =~= utf16(rest));
            assert(0x10000 + (units[0] - 0xD800) * 0x400 + (units[1] - 0xDC00) == code);
            vstd::utf8::char_u32_cast(c, code);
        }
        assert(decode_utf16(units) =~= seq![c] + rest);
        assert(seq![c] + rest =~= text);
    }
}

/// What stands before the first zero unit is within the units and holds no
/// zero unit; what ends it, where anything does, is a zero unit.
pub proof fn lemma_text_len_bounds(units: Seq<u16>)
    ensures
        text_len(units) <= units.len(),
        forall|i: int| 0 <= i < text_len(units) ==> units[i] != 0,
        text_len(units) < units.len() ==> units[text_len(units) as int] == 0,
    decreases units.len(),
{
    if units.len() > 0 && units[0] != 0 {
        let rest = units.drop_first();
        lemma_text_len_bounds(rest);
        assert forall|i: int| 0 <= i < text_len(units) implies units[i] != 0 by {
            if i > 0 {
                assert(units[i] == rest[i - 1]);
            }
        }
        if text_len(units) < units.len() {
            assert(units[text_len(units) as int] == rest[text_len(rest) as int]);
        }
    }
}

/// Units without a zero unit stand for a text without the character zero,
/// and for a text that is empty only where there are no units.
pub proof fn lemma_decode_no_nul(units: Seq<u16>)
    requires
        forall|i: int| 0 <= i < units.len() ==> units[i] != 0,
    ensures
        !has_nul(decode_utf16(units)),
        units.len() > 0 ==> decode_utf16(units).len() > 0,
    decreases units.len(),
{
    if units.len() > 0 {
        let rest = if begins_with_pair(units) {
            units.skip(2)
        } else {
            units.drop_first()
        };
        assert forall|i: int| 0 <= i < rest.len() implies rest[i] != 0 by {
            if begins_with_pair(units) {
                assert(rest[i] == units[i + 2]);
            } else {
                assert(rest[i] == units[i + 1]);
            }
        }
        lemma_decode_no_nul(rest);
        let c = first_char(units);
        let text = decode_utf16(units);
        let tail = decode_utf16(rest);
        assert(text =~= seq![c] + tail);
        assert(units[0] != 0);
        assert(c as u32 != 0);
        assert forall|i: int| 0 <= i < text.len() implies text[i] as u32 != 0 by {
            if i > 0 {
                assert(text[i] == tail[i - 1]);
                assert(tail[i - 1] as u32 != 0);
            }
        }
    }
}

/// The text of a string of the platform never holds the character zero.
pub proof fn lemma_decoded_text_has_no_nul(units: Seq<u16>)
    ensures
        !has_nul(decode_utf16(until_nul(units))),
{
    lemma_text_len_bounds(units);
    let text = until_nul(units);
    assert forall|i: int| 0 <= i < text.len() implies text[i] != 0 by {
        assert(text[i] == units[i]);
    }
    lemma_decode_no_nul(text);
}

/// The texts of a list of the platform can stand in a list again: none is
/// empty and none holds the character zero.
pub proof fn lemma_list_texts_listable(units: Seq<u16>)
    ensures
        listable(list_texts(units)),
    decreases units.len(),
{
    let n = text_len(units);
    lemma_text_len_bounds(units);
    if n > 0 {
        let first = units.take(n as int);
        assert forall|i: int| 0 <= i < first.len() implies first[i] != 0 by {
            assert(first[i] == units[i]);
        }
        lemma_decode_no_nul(first);
        let name = decode_utf16(first);
        if n >= units.len() {
            assert(first =~= units);
            let names = list_texts(units);
            assert(names =~= seq![name]);
            assert forall|i: int| 0 <= i < names.len() implies (#[trigger] names[i]).len() > 0
                && !has_nul(names[i]) by {
                assert(names[i] == name);
            }
        } else {
            let others = list_texts(units.skip(n as int + 1));
            lemma_list_texts_listable(units.skip(n as int + 1));
            let names = list_texts(units);
            assert(names =~= seq![name] + others);
            assert forall|i: int| 0 <= i < names.len() implies (#[trigger] names[i]).len() > 0
                && !has_nul(names[i]) by {
                if i == 0 {
                    assert(names[i] == name);
                } else {
                    assert(names[i] == others[i - 1]);
                }
            }
        }
    }
}

/// A string of the platform stands for the text that it was written from.
pub proof fn lemma_wide_round_trip(text: Seq<char>)
    requires
        !has_nul(text),
    ensures
        decode_utf16(until_nul(wide(text))) == text,
{
    lemma_until_nul_wide(text, Seq::empty());
    assert(wide(text) + Seq::<u16>::empty() =~= wide(text));
    lemma_decode_utf16(text);
}

/// Reading a list of names as the platform takes it gives the names back.
pub proof fn lemma_list_texts(names: Seq<Seq<char>>)
    requires
        listable(names),
    ensures
        list_texts(wide_list(names)) == names,
    decreases names.len(),
{
    if names.len() == 0 {
        assert(wide_list(names) =~= seq![0u16]);
        assert(list_texts(wide_list(names)) =~= names);
    } else {
        let name = names.first();
        let rest = names.drop_first();
        assert(name.len() > 0 && !has_nul(name));
        assert forall|i: int| 0 <= i < rest.len() implies (#[trigger] rest[i]).len() > 0
            && !has_nul(rest[i]) by {
            assert(rest[i] == names[i + 1]);
        }
        lemma_list_texts(rest);
        let units = wide_list(names);
        assert(units =~= wide(name) + wide_list(rest));
        lemma_until_nul_wide(name, wide_list(rest));
        lemma_utf16_len(name);
        lemma_decode_utf16(name);
        assert(list_texts(units) =~= seq![name] + rest);
        assert(seq![name] + rest =~= names);
    }
}

} // verus!
