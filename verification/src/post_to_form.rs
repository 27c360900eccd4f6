//! The body of the work-from-home entry sent to the office's web form.

use vstd::prelude::*;
use vstd::utf8::{decode_utf8, encode_scalar, encode_utf8, encode_utf8_decode_utf8};

use crate::basic_structures::{LocalDate, local_now};
use crate::text::{append_decimal, decimal, int_text, int_to_string, digit_char};

verus! {

/// Bytes that `application/x-www-form-urlencoded` keeps as they are.
pub open spec fn form_unchanged(b: u8) -> bool {
    ||| b == 42
    ||| b == 45
    ||| b == 46
    ||| b == 95
    ||| 48 <= b <= 57
    ||| 65 <= b <= 90
    ||| 97 <= b <= 122
}

/// An upper-case hexadecimal digit.
pub open spec fn hex_upper(v: nat) -> char {
    if v < 10 {
        digit_char(v)
    } else {
        (55 + v) as char
    }
}

/// One byte as the form encoding writes it.
pub open spec fn form_byte(b: u8) -> Seq<char> {
    if form_unchanged(b) {
        seq![b as char]
    } else if b == 32 {
        seq!['+']
    } else {
        seq!['%', hex_upper((b / 16) as nat), hex_upper((b % 16) as nat)]
    }
}

/// Bytes as the form encoding writes them.
pub open spec fn form_bytes(bs: Seq<u8>) -> Seq<char>
    decreases bs.len(),
{
    if bs.len() == 0 {
        Seq::empty()
    } else {
        form_byte(bs[0]) + form_bytes(bs.drop_first())
    }
}

/// Text as the form encoding writes its UTF-8 bytes.
pub open spec fn form_encoded(s: Seq<char>) -> Seq<char> {
    form_bytes(encode_utf8(s))
}

/// `prev` followed by the pair `name=value`, separated from it by `&`
/// when `prev` is not empty.
pub open spec fn with_pair(prev: Seq<char>, name: Seq<char>, value: Seq<char>) -> Seq<char> {
    prev + (if prev.len() > 0 {
        seq!['&']
    } else {
        Seq::empty()
    }) + form_encoded(name) + seq!['='] + form_encoded(value)
}

/// Calls `url::form_urlencoded::Serializer::new(target).append_pair(name,
/// value)`, which appends `&` when the target is not empty, then the
/// encoded name, `=` and the encoded value.
#[verifier::external_body]
fn append_form_pair(target: &mut String, name: &str, value: &str)
    ensures
        final(target)@ == old(target)@ + (if old(target)@.len() > 0 {
            seq!['&']
        } else {
            Seq::empty()
        }) + form_bytes(encode_utf8(name@)) + seq!['='] + form_bytes(encode_utf8(value@)),
{
    url::form_urlencoded::Serializer::new(target).append_pair(name, value);
}

/// The pairs of the form entry for `name` on `date`, in order.
pub open spec fn response_pairs(name: Seq<char>, date: LocalDate) -> Seq<(Seq<char>, Seq<char>)> {
    seq![
        ("entry.656124513"@, name),
        ("entry.1765270110_year"@, int_text(date.year as int)),
        ("entry.1765270110_month"@, decimal(date.month as nat)),
        ("entry.1765270110_day"@, decimal(date.day as nat)),
        ("entry.1251169846"@, "Work from home"@),
        ("entry.1251169846.other_option_response"@, ""@),
        ("pageHistory"@, "0,1"@),
        ("fvv"@, "1"@),
    ]
}

/// The encoded form of a list of pairs.
pub open spec fn form_body(pairs: Seq<(Seq<char>, Seq<char>)>) -> Seq<char>
    decreases pairs.len(),
{
    if pairs.len() == 0 {
        Seq::empty()
    } else {
        with_pair(form_body(pairs.drop_last()), pairs.last().0, pairs.last().1)
    }
}

fn add_pair(
    target: &mut String,
    name: &str,
    value: &str,
    Ghost(pairs): Ghost<Seq<(Seq<char>, Seq<char>)>>,
    Ghost(k): Ghost<int>,
)
    requires
        0 <= k < pairs.len(),
        old(target)@ == form_body(pairs.take(k)),
        pairs[k] == (name@, value@),
    ensures
        final(target)@ == form_body(pairs.take(k + 1)),
{
    append_form_pair(target, name, value);
    assert(pairs.take(k + 1).drop_last() =~= pairs.take(k));
}

/// The form entry reporting that `name` works from home on `date`.
pub fn response_body_on(name: &str, date: LocalDate) -> (r: String)
    ensures
        r@ == form_body(response_pairs(name@, date)),
{
    let ghost pairs = response_pairs(name@, date);
    let mut result = String::new();
    let year = int_to_string(date.year);
    let mut month = String::new();
    append_decimal(&mut month, date.month);
    let mut day = String::new();
    append_decimal(&mut day, date.day);
    assert(month@ =~= decimal(date.month as nat));
    assert(day@ =~= decimal(date.day as nat));
    assert(pairs.take(0) =~= Seq::<(Seq<char>, Seq<char>)>::empty());
    add_pair(&mut result, "entry.656124513", name, Ghost(pairs), Ghost(0));
    add_pair(&mut result, "entry.1765270110_year", year.as_str(), Ghost(pairs), Ghost(1));
    add_pair(&mut result, "entry.1765270110_month", month.as_str(), Ghost(pairs), Ghost(2));
    add_pair(&mut result, "entry.1765270110_day", day.as_str(), Ghost(pairs), Ghost(3));
    add_pair(&mut result, "entry.1251169846", "Work from home", Ghost(pairs), Ghost(4));
    add_pair(&mut result, "entry.1251169846.other_option_response", "", Ghost(pairs), Ghost(5));
    add_pair(&mut result, "pageHistory", "0,1", Ghost(pairs), Ghost(6));
    add_pair(&mut result, "fvv", "1", Ghost(pairs), Ghost(7));
    assert(pairs.take(8) =~= pairs);
    result
}

/// The form entry reporting that `name` works from home today, by the
/// date of the local clock.
pub fn get_response_body(name: &str) -> (r: String)
    ensures
        exists|today: LocalDate| today.valid() && r@ == #[trigger] form_body(response_pairs(name@, today)),
{
    let now = local_now();
    response_body_on(name, now.date)
}

} // verus!

verus! {

/// A hexadecimal digit, upper or lower case.
pub open spec fn is_hex_digit(c: char) -> bool {
    let u = c as u32;
    ||| 48 <= u <= 57
    ||| 65 <= u <= 70
    ||| 97 <= u <= 102
}

/// The value of a hexadecimal digit.
pub open spec fn hex_digit_value(c: char) -> int {
    let u = c as u32;
    if u <= 57 {
        u - 48
    } else if u <= 70 {
        u - 55
    } else {
        u - 87
    }
}

/// The bytes that an encoded name or value stands for: `+` is a space,
/// `%` with two hexadecimal digits is the byte they write, and any other
/// character is its own UTF-8 encoding.
pub open spec fn form_unbytes(cs: Seq<char>) -> Seq<u8>
    decreases cs.len(),
{
    if cs.len() == 0 {
        Seq::empty()
    } else if cs[0] == '+' {
        seq![32u8] + form_unbytes(cs.drop_first())
    } else if cs[0] == '%' && cs.len() >= 3 && is_hex_digit(cs[1]) && is_hex_digit(cs[2]) {
        seq![(hex_digit_value(cs[1]) * 16 + hex_digit_value(cs[2])) as u8] + form_unbytes(
            cs.skip(3),
        )
    } else {
        encode_scalar(cs[0] as u32) + form_unbytes(cs.drop_first())
    }
}

/// The text that an encoded name or value stands for.
pub open spec fn form_decoded(cs: Seq<char>) -> Seq<char> {
    decode_utf8(form_unbytes(cs))
}

/// The part of `s` before its first `c`; all of `s` when it has none.
pub open spec fn before_char(s: Seq<char>, c: char) -> Seq<char>
    decreases s.len(),
{
    if s.len() == 0 || s[0] == c {
        Seq::empty()
    } else {
        seq![s[0]] + before_char(s.drop_first(), c)
    }
}

/// The part of `s` after its first `c`; empty when it has none.
pub open spec fn after_char(s: Seq<char>, c: char) -> Seq<char>
    decreases s.len(),
{
    if s.len() == 0 {
        Seq::empty()
    } else if s[0] == c {
        s.drop_first()
    } else {
        after_char(s.drop_first(), c)
    }
}

/// The parts of `s` between its `sep` characters, in order.
pub open spec fn split_at(s: Seq<char>, sep: char) -> Seq<Seq<char>>
    decreases s.len(),
{
    if s.len() == 0 {
        seq![Seq::empty()]
    } else {
        let init = split_at(s.drop_last(), sep);
        if s.last() == sep {
            init.push(Seq::empty())
        } else {
            init.update(init.len() - 1, init.last().push(s.last()))
        }
    }
}

/// The pairs written in the parts of a form body: empty parts are
/// skipped, and each other part is cut at its first `=` into a name and
/// a value, both decoded.
pub open spec fn form_pairs_of_parts(parts: Seq<Seq<char>>) -> Seq<(Seq<char>, Seq<char>)>
    decreases parts.len(),
{
    if parts.len() == 0 {
        Seq::empty()
    } else {
        let rest = form_pairs_of_parts(parts.drop_last());
        let p = parts.last();
        if p.len() == 0 {
            rest
        } else {
            rest.push((form_decoded(before_char(p, '=')), form_decoded(after_char(p, '='))))
        }
    }
}

/// The pairs that a form body holds, read as
/// `application/x-www-form-urlencoded`: its parts between `&`, each cut
/// at its first `=` and decoded.
pub open spec fn form_pairs(body: Seq<char>) -> Seq<(Seq<char>, Seq<char>)> {
    form_pairs_of_parts(split_at(body, '&'))
}

/// `s` holds no `c`.
pub open spec fn lacks(s: Seq<char>, c: char) -> bool {
    forall|i: int| 0 <= i < s.len() ==> s[i] != c
}

proof fn lemma_form_bytes_lack_separators(bs: Seq<u8>)
    ensures
        lacks(form_bytes(bs), '&'),
        lacks(form_bytes(bs), '='),
    decreases bs.len(),
{
    if bs.len() > 0 {
        lemma_form_bytes_lack_separators(bs.drop_first());
    }
}

proof fn lemma_form_byte_reads_back(b: u8, rest: Seq<char>)
    ensures
        form_unbytes(form_byte(b) + rest) == seq![b] + form_unbytes(rest),
{
    let cs = form_byte(b) + rest;
    if form_unchanged(b) {
        assert(cs.drop_first() =~= rest);
        let u = b as u32;
        assert(u & 0x7f == u) by (bit_vector)
            requires
                u < 0x80,
        ;
        assert(encode_scalar((b as char) as u32) =~= seq![b]);
    } else if b == 32 {
        assert(cs.drop_first() =~= rest);
    } else {
        assert(cs.skip(3) =~= rest);
        assert(form_unbytes(cs) =~= seq![b] + form_unbytes(rest));
    }
}

proof fn lemma_form_bytes_read_back(bs: Seq<u8>)
    ensures
        form_unbytes(form_bytes(bs)) == bs,
    decreases bs.len(),
{
    if bs.len() > 0 {
        lemma_form_bytes_read_back(bs.drop_first());
        lemma_form_byte_reads_back(bs[0], form_bytes(bs.drop_first()));
        assert(seq![bs[0]] + bs.drop_first() =~= bs);
    }
}

/// Decoding undoes the form encoding.
pub proof fn lemma_form_encoded_reads_back(s: Seq<char>)
    ensures
        form_decoded(form_encoded(s)) == s,
{
    lemma_form_bytes_read_back(encode_utf8(s));
    encode_utf8_decode_utf8(s);
}

proof fn lemma_cut_at_first(a: Seq<char>, c: char, b: Seq<char>)
    requires
        lacks(a, c),
    ensures
        before_char(a + seq![c] + b, c) == a,
        after_char(a + seq![c] + b, c) == b,
    decreases a.len(),
{
    let s = a + seq![c] + b;
    if a.len() == 0 {
        assert(s.drop_first() =~= b);
        assert(a =~= Seq::<char>::empty());
    } else {
        assert(s.drop_first() =~= a.drop_first() + seq![c] + b);
        lemma_cut_at_first(a.drop_first(), c, b);
        assert(seq![a[0]] + a.drop_first() =~= a);
    }
}

proof fn lemma_split_last(a: Seq<char>, sep: char, b: Seq<char>)
    requires
        lacks(b, sep),
    ensures
        split_at(a + seq![sep] + b, sep) == split_at(a, sep).push(b),
    decreases b.len(),
{
    let s = a + seq![sep] + b;
    if b.len() == 0 {
        assert(s.drop_last() =~= a);
        assert(b =~= Seq::<char>::empty());
    } else {
        assert(s.drop_last() =~= a + seq![sep] + b.drop_last());
        lemma_split_last(a, sep, b.drop_last());
        assert(b.drop_last().push(b.last()) =~= b);
        assert(split_at(s, sep) =~= split_at(a, sep).push(b));
    }
}

proof fn lemma_split_whole(b: Seq<char>, sep: char)
    requires
        lacks(b, sep),
    ensures
        split_at(b, sep) == seq![b],
    decreases b.len(),
{
    if b.len() > 0 {
        lemma_split_whole(b.drop_last(), sep);
        assert(b.drop_last().push(b.last()) =~= b);
        assert(split_at(b, sep) =~= seq![b]);
    } else {
        assert(b =~= Seq::<char>::empty());
    }
}

proof fn lemma_empty_body_has_no_pairs()
    ensures
        form_pairs(Seq::empty()) == Seq::<(Seq<char>, Seq<char>)>::empty(),
{
    let parts = split_at(Seq::empty(), '&');
    assert(parts =~= seq![Seq::<char>::empty()]);
    assert(parts.drop_last() =~= Seq::<Seq<char>>::empty());
    assert(form_pairs_of_parts(parts.drop_last()) =~= Seq::<(Seq<char>, Seq<char>)>::empty());
}

/// Reading a form body back gives the pairs it was made of, in order,
/// whatever characters the names and values hold.
pub proof fn lemma_form_body_reads_back(pairs: Seq<(Seq<char>, Seq<char>)>)
    ensures
        form_pairs(form_body(pairs)) == pairs,
    decreases pairs.len(),
{
    lemma_empty_body_has_no_pairs();
    if pairs.len() == 0 {
        assert(form_body(pairs) =~= Seq::<char>::empty());
        assert(pairs =~= Seq::<(Seq<char>, Seq<char>)>::empty());
    } else {
        let init = pairs.drop_last();
        let (name, value) = pairs.last();
        lemma_form_body_reads_back(init);
        let prev = form_body(init);
        let en = form_encoded(name);
        let ev = form_encoded(value);
        let part = en + seq!['='] + ev;
        lemma_form_bytes_lack_separators(encode_utf8(name));
        lemma_form_bytes_lack_separators(encode_utf8(value));
        assert(lacks(part, '&'));
        lemma_cut_at_first(en, '=', ev);
        lemma_form_encoded_reads_back(name);
        lemma_form_encoded_reads_back(value);
        let parts = split_at(form_body(pairs), '&');
        if prev.len() == 0 {
            assert(form_body(pairs) =~= part);
            lemma_split_whole(part, '&');
            assert(prev =~= Seq::<char>::empty());
            assert(parts.drop_last() =~= Seq::<Seq<char>>::empty());
            assert(form_pairs_of_parts(parts.drop_last()) =~= Seq::<(Seq<char>, Seq<char>)>::empty());
        } else {
            assert(form_body(pairs) =~= prev + seq!['&'] + part);
            lemma_split_last(prev, '&', part);
            assert(parts.drop_last() =~= split_at(prev, '&'));
        }
        assert(parts.last() == part);
        assert(form_pairs(form_body(pairs)) == form_pairs_of_parts(parts.drop_last()).push(
            (form_decoded(before_char(part, '=')), form_decoded(after_char(part, '='))),
        ));
        assert(form_pairs_of_parts(parts.drop_last()) == init);
        assert(pairs =~= init.push((name, value)));
    }
}

/// The form entry for `name` on `date` reads back as its pairs.
pub proof fn lemma_response_body_reads_back(name: Seq<char>, date: LocalDate)
    ensures
        form_pairs(form_body(response_pairs(name, date))) == response_pairs(name, date),
{
    lemma_form_body_reads_back(response_pairs(name, date));
}

} // verus!

verus! {

/// The form entry for `name` on `date` reads back as the name, then the
/// year, month and day of `date` in decimal, then the fixed answers.
pub proof fn lemma_response_body_fields(name: Seq<char>, date: LocalDate)
    ensures
        ({
            let pairs = form_pairs(form_body(response_pairs(name, date)));
            &&& pairs.len() == 8
            &&& pairs[0] == ("entry.656124513"@, name)
            &&& pairs[1] == ("entry.1765270110_year"@, int_text(date.year as int))
            &&& pairs[2] == ("entry.1765270110_month"@, decimal(date.month as nat))
            &&& pairs[3] == ("entry.1765270110_day"@, decimal(date.day as nat))
            &&& pairs[4] == ("entry.1251169846"@, "Work from home"@)
        }),
{
    lemma_response_body_reads_back(name, date);
}

} // verus!
