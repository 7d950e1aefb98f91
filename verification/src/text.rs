//! Text helpers: the string operations the engine's rules are stated over.
use vstd::prelude::*;

verus! {

/// `String::push` of std: appends one character.
pub assume_specification[ String::push ](s: &mut String, ch: char)
    ensures
        final(s)@ == old(s)@.push(ch),
;

/// Whether two texts hold the same characters.
pub fn same_text(a: &str, b: &str) -> (same: bool)
    ensures
        same == (a@ == b@),
{
    a.to_owned() == b.to_owned()
}

// ---------------------------------------------------------------- decimal
/// The decimal digits of `n`, most significant first, without padding.
pub open spec fn decimal_text(n: nat) -> Seq<char>
    decreases n,
{
    if n < 10 {
        seq![digit_char(n)]
    } else {
        decimal_text(n / 10).push(digit_char(n % 10))
    }
}

/// The ASCII digit of `d`, for `d` below ten.
pub open spec fn digit_char(d: nat) -> char {
    ((48 + d) as u8) as char
}

/// Writes `n` in decimal.
pub fn decimal(n: u64) -> (text: String)
    ensures
        text@ == decimal_text(n as nat),
    decreases n,
{
    let mut text = if n < 10 {
        String::new()
    } else {
        decimal(n / 10)
    };
    let digit: u8 = 48 + (n % 10) as u8;
    text.push(digit as char);
    proof {
        assert(Seq::<char>::empty().push(digit as char) =~= seq![digit as char]);
    }
    text
}

// ---------------------------------------------------------------- characters
/// The characters of `text`, in order.
pub fn chars_of(text: &str) -> (chars: Vec<char>)
    ensures
        chars@ == text@,
{
    let mut chars: Vec<char> = Vec::new();
    for c in it: text.chars()
        invariant
            it.seq() == text@,
            chars@ == text@.take(it.index() as int),
    {
        chars.push(c);
        proof {
            assert(text@.take(it.index() as int + 1) =~= text@.take(it.index() as int).push(c));
        }
    }
    assert(text@.take(text@.len() as int) =~= text@);
    chars
}

/// The text made of `chars[from..to]`.
pub fn text_of(chars: &Vec<char>, from: usize, to: usize) -> (text: String)
    requires
        from <= to <= chars@.len(),
    ensures
        text@ == chars@.subrange(from as int, to as int),
{
    let mut text = String::new();
    let mut i: usize = from;
    while i < to
        invariant
            from <= i <= to <= chars@.len(),
            text@ == chars@.subrange(from as int, i as int),
        decreases to - i,
    {
        text.push(chars[i]);
        i += 1;
        proof {
            assert(chars@.subrange(from as int, i as int) =~= chars@.subrange(
                from as int,
                i - 1,
            ).push(chars@[i - 1]));
        }
    }
    text
}

/// The Unicode `White_Space` property.
pub open spec fn is_blank(c: char) -> bool {
    let n = c as u32;
    ||| 9 <= n <= 13
    ||| n == 32
    ||| n == 0x85
    ||| n == 0xA0
    ||| n == 0x1680
    ||| 0x2000 <= n <= 0x200A
    ||| n == 0x2028
    ||| n == 0x2029
    ||| n == 0x202F
    ||| n == 0x205F
    ||| n == 0x3000
}

/// Whether `c` is Unicode whitespace.
pub fn blank(c: char) -> (yes: bool)
    ensures
        yes == is_blank(c),
{
    let n = c as u32;
    (9 <= n && n <= 13) || n == 32 || n == 0x85 || n == 0xA0 || n == 0x1680 || (0x2000 <= n && n
        <= 0x200A) || n == 0x2028 || n == 0x2029 || n == 0x202F || n == 0x205F || n == 0x3000
}

/// `text` without its leading whitespace.
pub open spec fn trim_start(text: Seq<char>) -> Seq<char>
    decreases text.len(),
{
    if text.len() > 0 && is_blank(text[0]) {
        trim_start(text.drop_first())
    } else {
        text
    }
}

/// `text` without its trailing whitespace.
pub open spec fn trim_end(text: Seq<char>) -> Seq<char>
    decreases text.len(),
{
    if text.len() > 0 && is_blank(text.last()) {
        trim_end(text.drop_last())
    } else {
        text
    }
}

/// `text` without leading and trailing whitespace.
pub open spec fn trim_text(text: Seq<char>) -> Seq<char> {
    trim_end(trim_start(text))
}

/// Strips leading and trailing Unicode whitespace.
pub fn trim(text: &str) -> (trimmed: String)
    ensures
        trimmed@ == trim_text(text@),
{
    let chars = chars_of(text);
    let mut from: usize = 0;
    assert(chars@.skip(0) =~= chars@);
    while from < chars.len() && blank(chars[from])
        invariant
            from <= chars@.len(),
            trim_start(chars@) == trim_start(chars@.skip(from as int)),
        decreases chars@.len() - from,
    {
        proof {
            assert(chars@.skip(from as int).drop_first() =~= chars@.skip(from as int + 1));
        }
        from += 1;
    }
    let ghost rest = chars@.skip(from as int);
    let mut to: usize = chars.len();
    assert(chars@.subrange(from as int, to as int) =~= rest);
    while to > from && blank(chars[to - 1])
        invariant
            from <= to <= chars@.len(),
            trim_end(rest) == trim_end(chars@.subrange(from as int, to as int)),
        decreases to,
    {
        proof {
            assert(chars@.subrange(from as int, to as int).drop_last() =~= chars@.subrange(
                from as int,
                to - 1,
            ));
        }
        to -= 1;
    }
    text_of(&chars, from, to)
}

/// `c`, with an ASCII capital letter lowered.
pub open spec fn lower_char(c: char) -> char {
    if 'A' <= c <= 'Z' {
        ((c as u32 + 32) as u8) as char
    } else {
        c
    }
}

/// `text` with its ASCII capital letters lowered.
pub open spec fn lower_text(text: Seq<char>) -> Seq<char> {
    text.map_values(|c: char| lower_char(c))
}

/// Lowers the ASCII capital letters of `text`; every other character stays.
pub fn ascii_lower(text: &str) -> (lowered: String)
    ensures
        lowered@ == lower_text(text@),
{
    let chars = chars_of(text);
    let mut lowered = String::new();
    let mut i: usize = 0;
    while i < chars.len()
        invariant
            i <= chars@.len(),
            lowered@ =~= lower_text(chars@.take(i as int)),
        decreases chars@.len() - i,
    {
        let c = chars[i];
        if 'A' <= c && c <= 'Z' {
            lowered.push(((c as u32 + 32) as u8) as char);
        } else {
            lowered.push(c);
        }
        i += 1;
        proof {
            assert(chars@.take(i as int) =~= chars@.take(i - 1).push(c));
        }
    }
    assert(chars@.take(i as int) =~= chars@);
    lowered
}

/// Whether `needle` stands in `text` at `at`.
pub open spec fn stands_at(text: Seq<char>, needle: Seq<char>, at: int) -> bool {
    0 <= at && at + needle.len() <= text.len() && text.subrange(at, at + needle.len() as int)
        == needle
}

/// Whether `needle` occurs anywhere in `text`.
pub open spec fn holds_text(text: Seq<char>, needle: Seq<char>) -> bool {
    exists|at: int| #[trigger] stands_at(text, needle, at)
}

/// Whether `needle` stands in `text` at `at`.
pub fn stands(text: &Vec<char>, needle: &Vec<char>, at: usize) -> (yes: bool)
    requires
        at <= text@.len(),
    ensures
        yes == stands_at(text@, needle@, at as int),
{
    if needle.len() > text.len() - at {
        return false;
    }
    let mut i: usize = 0;
    while i < needle.len()
        invariant
            i <= needle@.len(),
            at + needle@.len() <= text.len(),
            text@.subrange(at as int, at + i) =~= needle@.take(i as int),
        decreases needle@.len() - i,
    {
        if text[at + i] != needle[i] {
            proof {
                assert(text@.subrange(at as int, at + needle@.len())[i as int] != needle@[i as int]);
            }
            return false;
        }
        i += 1;
    }
    assert(needle@.take(i as int) =~= needle@);
    true
}

/// Whether `needle` occurs anywhere in `text`.
pub fn contains_text(text: &str, needle: &str) -> (yes: bool)
    ensures
        yes == holds_text(text@, needle@),
{
    let hay = chars_of(text);
    let pin = chars_of(needle);
    let mut at: usize = 0;
    loop
        invariant
            at <= hay@.len(),
            hay@ == text@,
            pin@ == needle@,
            forall|p: int| 0 <= p < at ==> !#[trigger] stands_at(hay@, pin@, p),
        decreases hay@.len() - at,
    {
        if stands(&hay, &pin, at) {
            return true;
        }
        if at == hay.len() {
            return false;
        }
        at += 1;
    }
}

/// `text` with every occurrence of `needle`, found from the left without
/// overlap, replaced by `value`.
pub open spec fn replaced(text: Seq<char>, needle: Seq<char>, value: Seq<char>) -> Seq<char>
    decreases text.len(),
{
    if needle.len() == 0 || text.len() == 0 {
        text
    } else if stands_at(text, needle, 0) {
        value + replaced(text.skip(needle.len() as int), needle, value)
    } else {
        seq![text[0]] + replaced(text.skip(1), needle, value)
    }
}

/// Replaces every occurrence of `needle` by `value`, from the left and
/// without overlap.
pub fn replace_all(text: &str, needle: &str, value: &str) -> (out: String)
    requires
        needle@.len() > 0,
    ensures
        out@ == replaced(text@, needle@, value@),
{
    let hay = chars_of(text);
    let pin = chars_of(needle);
    let mut out = String::new();
    let mut at: usize = 0;
    assert(hay@.skip(0) =~= hay@);
    while at < hay.len()
        invariant
            at <= hay@.len(),
            pin@.len() > 0,
            pin@ == needle@,
            out@ + replaced(hay@.skip(at as int), pin@, value@) =~= replaced(hay@, pin@, value@),
        decreases hay@.len() - at,
    {
        let ghost rest = hay@.skip(at as int);
        let hit = stands(&hay, &pin, at);
        proof {
            assert(hit == stands_at(rest, pin@, 0)) by {
                if at + pin@.len() <= hay@.len() {
                    assert(rest.subrange(0, pin@.len() as int) =~= hay@.subrange(
                        at as int,
                        at + pin@.len(),
                    ));
                }
            }
        }
        if hit {
            proof {
                assert(rest.skip(pin@.len() as int) =~= hay@.skip(at + pin@.len()));
            }
            out.append(value);
            at += pin.len();
        } else {
            proof {
                assert(rest.skip(1) =~= hay@.skip(at + 1));
            }
            out.push(hay[at]);
            at += 1;
        }
    }
    assert(hay@.skip(at as int) =~= Seq::<char>::empty());
    assert(out@ + Seq::<char>::empty() =~= out@);
    out
}

// ---------------------------------------------------------------- splitting
/// Where `sep` first stands in `text`, or its length.
pub open spec fn first_at(text: Seq<char>, sep: char) -> int
    decreases text.len(),
{
    if text.len() == 0 || text[0] == sep {
        0
    } else {
        1 + first_at(text.skip(1), sep)
    }
}

/// What stands before and after the first `sep`.
pub open spec fn cut(text: Seq<char>, sep: char) -> Option<(Seq<char>, Seq<char>)> {
    let at = first_at(text, sep);
    if at < text.len() {
        Some((text.take(at), text.skip(at + 1)))
    } else {
        None
    }
}

/// A head without the separator is what comes before the first one.
pub(crate) proof fn lemma_cut(head: Seq<char>, sep: char, tail: Seq<char>)
    requires
        !head.contains(sep),
    ensures
        cut(head + seq![sep] + tail, sep) == Some((head, tail)),
{
    let all = head + seq![sep] + tail;
    lemma_first_at(head, sep, seq![sep] + tail);
    assert(all =~= head + (seq![sep] + tail));
    assert(all.take(head.len() as int) =~= head);
    assert(all.skip(head.len() as int + 1) =~= tail);
}

proof fn lemma_first_at(head: Seq<char>, sep: char, tail: Seq<char>)
    requires
        !head.contains(sep),
        tail.len() > 0,
        tail[0] == sep,
    ensures
        first_at(head + tail, sep) == head.len(),
    decreases head.len(),
{
    if head.len() > 0 {
        assert(head[0] != sep);
        assert((head + tail).skip(1) =~= head.skip(1) + tail);
        assert forall|i: int| 0 <= i < head.skip(1).len() implies head.skip(1)[i] != sep by {
            assert(head[i + 1] != sep);
        }
        lemma_first_at(head.skip(1), sep, tail);
    }
}

pub proof fn lemma_first_at_bounds(text: Seq<char>, sep: char)
    ensures
        0 <= first_at(text, sep) <= text.len(),
    decreases text.len(),
{
    if text.len() > 0 && text[0] != sep {
        lemma_first_at_bounds(text.skip(1), sep);
    }
}

/// A text without the separator is not cut.
pub(crate) proof fn lemma_uncut(text: Seq<char>, sep: char)
    requires
        !text.contains(sep),
    ensures
        cut(text, sep) is None,
    decreases text.len(),
{
    if text.len() > 0 {
        assert(text[0] != sep);
        assert forall|i: int| 0 <= i < text.skip(1).len() implies text.skip(1)[i] != sep by {
            assert(text[i + 1] != sep);
        }
        lemma_uncut(text.skip(1), sep);
    }
}

/// The parts of `text` between its separators, all of them.
pub open spec fn fields(text: Seq<char>, sep: char) -> Seq<Seq<char>>
    decreases text.len(),
{
    match cut(text, sep) {
        None => seq![text],
        Some((head, rest)) => {
            proof {
                lemma_first_at_bounds(text, sep);
            }
            seq![head] + fields(rest, sep)
        },
    }
}

/// Splits `text` at the first `sep`.
pub fn split_once(text: &str, sep: char) -> (parts: Option<(String, String)>)
    ensures
        parts is Some <==> cut(text@, sep) is Some,
        parts matches Some(p) ==> cut(text@, sep) == Some((p.0@, p.1@)),
{
    let chars = chars_of(text);
    let mut at: usize = 0;
    assert(text@.skip(0) =~= text@);
    while at < chars.len() && chars[at] != sep
        invariant
            chars@ == text@,
            at <= chars@.len(),
            first_at(text@, sep) == at + first_at(text@.skip(at as int), sep),
        decreases chars@.len() - at,
    {
        assert(text@.skip(at as int).skip(1) =~= text@.skip(at + 1));
        assert(text@.skip(at as int)[0] == text@[at as int]);
        at += 1;
    }
    if at == chars.len() {
        assert(text@.skip(at as int) =~= Seq::<char>::empty());
        None
    } else {
        proof {
            assert(text@.skip(at as int)[0] == sep);
            assert(text@.take(at as int) =~= text@.subrange(0, at as int));
            assert(text@.skip(at + 1) =~= text@.subrange(at + 1, text@.len() as int));
        }
        Some((text_of(&chars, 0, at), text_of(&chars, at + 1, chars.len())))
    }
}

/// What follows `prefix` where `text` starts with it.
pub fn strip_prefix(text: &str, prefix: &str) -> (rest: Option<String>)
    ensures
        rest is Some <==> stands_at(text@, prefix@, 0),
        rest matches Some(r) ==> r@ == text@.skip(prefix@.len() as int),
{
    let chars = chars_of(text);
    let head = chars_of(prefix);
    if head.len() <= chars.len() && stands(&chars, &head, 0) {
        assert(text@.skip(prefix@.len() as int) =~= text@.subrange(
            prefix@.len() as int,
            text@.len() as int,
        ));
        Some(text_of(&chars, head.len(), chars.len()))
    } else {
        None
    }
}

// ---------------------------------------------------------------- lists
/// The texts of some strings.
pub open spec fn texts(strings: Seq<String>) -> Seq<Seq<char>> {
    strings.map_values(|s: String| s@)
}

/// Some texts with `sep` between each two.
pub open spec fn joined_texts(parts: Seq<Seq<char>>, sep: Seq<char>) -> Seq<char>
    decreases parts.len(),
{
    if parts.len() == 0 {
        Seq::empty()
    } else if parts.len() == 1 {
        parts[0]
    } else {
        joined_texts(parts.drop_last(), sep) + sep + parts.last()
    }
}

/// Joins some strings with `sep` between each two.
pub fn join_texts(parts: &Vec<String>, sep: &str) -> (out: String)
    ensures
        out@ == joined_texts(texts(parts@), sep@),
{
    let ghost all = texts(parts@);
    let mut out = String::new();
    let mut i: usize = 0;
    assert(out@ =~= joined_texts(all.take(0), sep@));
    while i < parts.len()
        invariant
            i <= parts@.len(),
            all == texts(parts@),
            out@ == joined_texts(all.take(i as int), sep@),
        decreases parts@.len() - i,
    {
        proof {
            assert(all.take(i + 1).drop_last() =~= all.take(i as int));
            assert(all.take(i + 1).last() == parts@[i as int]@);
        }
        if i > 0 {
            out.append(sep);
        }
        out.append(parts[i].as_str());
        proof {
            if i == 0 {
                assert(all.take(0) =~= Seq::<Seq<char>>::empty());
                assert(out@ =~= parts@[0]@);
            }
        }
        i += 1;
    }
    assert(all.take(parts@.len() as int) =~= all);
    out
}

// ---------------------------------------------------------------- numbers
/// The value of a run of decimal digits.
pub open spec fn digits_value(digits: Seq<char>) -> nat
    decreases digits.len(),
{
    if digits.len() == 0 {
        0
    } else {
        digits_value(digits.drop_last()) * 10 + (digits.last() as u32 - 48) as nat
    }
}

/// Whether `c` is an ASCII digit.
pub open spec fn is_digit(c: char) -> bool {
    '0' <= c <= '9'
}

/// Whether `text` is a non-empty run of ASCII digits.
pub open spec fn all_digits(text: Seq<char>) -> bool {
    text.len() > 0 && forall|i: int| 0 <= i < text.len() ==> is_digit(#[trigger] text[i])
}

/// The whole number that `text` writes: digits only, after an optional `+`.
pub open spec fn decimal_number(text: Seq<char>) -> Option<nat> {
    let digits = if text.len() > 0 && text[0] == '+' {
        text.skip(1)
    } else {
        text
    };
    if all_digits(digits) {
        Some(digits_value(digits))
    } else {
        None
    }
}

/// Whether `text` is a non-empty run of ASCII digits.
pub fn only_digits(text: &str) -> (yes: bool)
    ensures
        yes == all_digits(text@),
{
    let chars = chars_of(text);
    let mut i: usize = 0;
    while i < chars.len()
        invariant
            i <= chars@.len(),
            chars@ == text@,
            forall|j: int| 0 <= j < i ==> is_digit(#[trigger] chars@[j]),
        decreases chars@.len() - i,
    {
        if !('0' <= chars[i] && chars[i] <= '9') {
            return false;
        }
        i += 1;
    }
    chars.len() > 0
}

/// What std says of a text that is no `u64`.
pub uninterp spec fn u64_refusal(text: Seq<char>) -> Seq<char>;

/// `str::parse::<u64>` of std: succeeds on digits after an optional `+`
/// whose value fits; otherwise hands back the error's own message.
#[verifier::external_body]
pub(crate) fn parse_u64(text: &str) -> (parsed: Result<u64, String>)
    ensures
        parsed is Ok <==> (decimal_number(text@) matches Some(n) && n <= u64::MAX),
        parsed matches Ok(v) ==> decimal_number(text@) == Some(v as nat),
        parsed matches Err(e) ==> e@ == u64_refusal(text@),
{
    text.parse::<u64>().map_err(|e| e.to_string())
}

/// What std says of a text that is no `u32`.
pub uninterp spec fn u32_refusal(text: Seq<char>) -> Seq<char>;

/// `str::parse::<u32>` of std: succeeds on digits after an optional `+`
/// whose value fits; otherwise hands back the error's own message.
#[verifier::external_body]
pub(crate) fn parse_u32(text: &str) -> (parsed: Result<u32, String>)
    ensures
        parsed is Ok <==> (decimal_number(text@) matches Some(n) && n <= u32::MAX),
        parsed matches Ok(v) ==> decimal_number(text@) == Some(v as nat),
        parsed matches Err(e) ==> e@ == u32_refusal(text@),
{
    text.parse::<u32>().map_err(|e| e.to_string())
}

// ---------------------------------------------------------------- encodings
/// `text` in double quotes with its special characters escaped, as std's
/// `Debug` writes it.
pub uninterp spec fn quoted_text(text: Seq<char>) -> Seq<char>;

/// std's `Debug` of a `str`.
#[verifier::external_body]
pub(crate) fn quoted(text: &str) -> (out: String)
    ensures
        out@ == quoted_text(text@),
{
    format!("{text:?}")
}

/// `String::from_utf8` of std: the text that `bytes` encode, if they are
/// valid UTF-8.
#[verifier::external_body]
pub(crate) fn utf8_text(bytes: &Vec<u8>) -> (text: Option<String>)
    ensures
        text is Some <==> vstd::utf8::valid_utf8(bytes@),
        text matches Some(t) ==> t@ == vstd::utf8::decode_utf8(bytes@),
{
    String::from_utf8(bytes.clone()).ok()
}

/// `bytes` as displayable text, ill-formed parts replaced.
pub uninterp spec fn lossy_text(bytes: Seq<u8>) -> Seq<char>;

/// `String::from_utf8_lossy` of std, which is also how a path is displayed;
/// valid UTF-8 comes back as it is.
#[verifier::external_body]
pub(crate) fn lossy(bytes: &Vec<u8>) -> (text: String)
    ensures
        text@ == lossy_text(bytes@),
        vstd::utf8::valid_utf8(bytes@) ==> text@ == vstd::utf8::decode_utf8(bytes@),
{
    String::from_utf8_lossy(bytes).into_owned()
}

// ---------------------------------------------------------------- laws
/// Trimming takes whitespace off both ends and nothing else: what is left
/// neither begins nor ends with it.
pub proof fn law_trimming_strips_only_the_ends(text: Seq<char>)
    ensures
        exists|from: int, to: int|
            {
                &&& 0 <= from <= to <= text.len()
                &&& trim_text(text) == #[trigger] text.subrange(from, to)
                &&& forall|i: int| 0 <= i < from || to <= i < text.len() ==> is_blank(text[i])
                &&& from < to ==> !is_blank(text[from]) && !is_blank(text[to - 1])
            },
        trim_text(trim_text(text)) == trim_text(text),
{
    lemma_trim_start(text);
    let rest = trim_start(text);
    let from = text.len() - rest.len();
    lemma_trim_end(rest);
    let to = from + trim_end(rest).len();
    assert(trim_text(text) =~= text.subrange(from, to));
    assert forall|i: int| 0 <= i < from || to <= i < text.len() implies is_blank(text[i]) by {
        if to <= i {
            assert(rest[i - from] == text[i]);
        }
    }
    if from < to {
        assert(rest[0] == text[from]);
        assert(trim_end(rest).last() == text[to - 1]);
    }
    let trimmed = trim_text(text);
    if trimmed.len() > 0 {
        assert(trimmed[0] == rest[0]);
    }
}

proof fn lemma_trim_start(text: Seq<char>)
    ensures
        trim_start(text).len() <= text.len(),
        trim_start(text) == text.skip(text.len() - trim_start(text).len()),
        forall|i: int| 0 <= i < text.len() - trim_start(text).len() ==> is_blank(#[trigger] text[i]),
        trim_start(text).len() > 0 ==> !is_blank(trim_start(text)[0]),
    decreases text.len(),
{
    if text.len() > 0 && is_blank(text[0]) {
        let rest = text.drop_first();
        lemma_trim_start(rest);
        assert(trim_start(text) =~= text.skip(text.len() - trim_start(text).len()));
        assert forall|i: int| 0 <= i < text.len() - trim_start(text).len() implies is_blank(
            #[trigger] text[i],
        ) by {
            if i > 0 {
                assert(rest[i - 1] == text[i]);
            }
        }
    } else {
        assert(text.skip(0) =~= text);
    }
}

proof fn lemma_trim_end(text: Seq<char>)
    ensures
        trim_end(text).len() <= text.len(),
        trim_end(text) == text.take(trim_end(text).len() as int),
        forall|i: int| trim_end(text).len() <= i < text.len() ==> is_blank(#[trigger] text[i]),
        trim_end(text).len() > 0 ==> !is_blank(trim_end(text).last()),
    decreases text.len(),
{
    if text.len() > 0 && is_blank(text.last()) {
        let rest = text.drop_last();
        lemma_trim_end(rest);
        assert(trim_end(text) =~= text.take(trim_end(text).len() as int));
        assert forall|i: int| trim_end(text).len() <= i < text.len() implies is_blank(
            #[trigger] text[i],
        ) by {
            if i < rest.len() {
                assert(rest[i] == text[i]);
            }
        }
    } else {
        assert(text.take(text.len() as int) =~= text);
    }
}

/// Space and the control characters from tab to carriage return are blank, a
/// printable ASCII character is not.
pub proof fn law_printable_characters_are_not_blank(c: char)
    ensures
        33 <= c as u32 <= 126 ==> !is_blank(c),
        c as u32 == 32 || 9 <= c as u32 <= 13 ==> is_blank(c),
{
}

/// Lowering turns the capitals from A to Z into their small letters, each in
/// its place, and leaves every other character.
pub proof fn law_lowering_is_by_letter(text: Seq<char>, i: int)
    requires
        0 <= i < text.len(),
    ensures
        lower_text(text).len() == text.len(),
        65 <= text[i] as u32 <= 90 ==> lower_text(text)[i] as u32 == text[i] as u32 + 32,
        !(65 <= text[i] as u32 <= 90) ==> lower_text(text)[i] == text[i],
        lower_text(lower_text(text))[i] == lower_text(text)[i],
{
}

/// A number's decimal text reads back as the number, and has no needless
/// zero in front.
pub proof fn law_decimal_text_reads_back(n: nat)
    ensures
        decimal_number(decimal_text(n)) == Some(n),
        n > 0 ==> decimal_text(n)[0] != '0',
        decimal_text(0) == seq!['0'],
{
    lemma_decimal_digits(n);
    assert(decimal_text(n)[0] != '+');
    assert(decimal_text(0) =~= seq!['0']);
}

proof fn lemma_decimal_digits(n: nat)
    ensures
        all_digits(decimal_text(n)),
        digits_value(decimal_text(n)) == n,
        n > 0 ==> decimal_text(n)[0] != '0',
    decreases n,
{
    if n < 10 {
        reveal_with_fuel(digits_value, 2);
        assert(decimal_text(n).drop_last() =~= Seq::<char>::empty());
    } else {
        lemma_decimal_digits(n / 10);
        let head = decimal_text(n / 10);
        assert(decimal_text(n).drop_last() =~= head);
        assert forall|i: int| 0 <= i < decimal_text(n).len() implies is_digit(
            #[trigger] decimal_text(n)[i],
        ) by {
            if i < head.len() {
                assert(is_digit(head[i]));
            }
        }
    }
}

/// The fields of a text, put together again with the separator between them,
/// are the text, and none of them holds the separator.
pub proof fn law_fields_join_to_the_text(text: Seq<char>, sep: char)
    ensures
        fields(text, sep).len() >= 1,
        joined_fields(fields(text, sep), sep) == text,
        forall|i: int|
            0 <= i < fields(text, sep).len() ==> !(#[trigger] fields(text, sep)[i]).contains(sep),
    decreases text.len(),
{
    lemma_first_at_bounds(text, sep);
    lemma_before_first(text, sep);
    match cut(text, sep) {
        None => {
            assert(fields(text, sep) =~= seq![text]);
        },
        Some((head, rest)) => {
            law_fields_join_to_the_text(rest, sep);
            let all = fields(text, sep);
            assert(all.drop_first() =~= fields(rest, sep));
            assert(head + seq![sep] + rest =~= text);
            assert forall|i: int| 0 <= i < all.len() implies !(#[trigger] all[i]).contains(sep) by {
                if i > 0 {
                    assert(all[i] == fields(rest, sep)[i - 1]);
                }
            }
        },
    }
}

/// Some fields with the separator between each two.
pub open spec fn joined_fields(parts: Seq<Seq<char>>, sep: char) -> Seq<char>
    decreases parts.len(),
{
    if parts.len() == 0 {
        Seq::empty()
    } else if parts.len() == 1 {
        parts[0]
    } else {
        parts[0] + seq![sep] + joined_fields(parts.drop_first(), sep)
    }
}

proof fn lemma_before_first(text: Seq<char>, sep: char)
    ensures
        !text.take(first_at(text, sep)).contains(sep),
        first_at(text, sep) < text.len() ==> text[first_at(text, sep)] == sep,
        first_at(text, sep) == text.len() ==> !text.contains(sep),
    decreases text.len(),
{
    lemma_first_at_bounds(text, sep);
    if text.len() > 0 && text[0] != sep {
        let rest = text.skip(1);
        lemma_first_at_bounds(rest, sep);
        lemma_before_first(rest, sep);
        let at = first_at(text, sep);
        assert forall|i: int| 0 <= i < at implies text.take(at)[i] != sep by {
            if i > 0 {
                assert(rest.take(at - 1)[i - 1] == text[i]);
            }
        }
        if at == text.len() {
            assert(text.take(at) =~= text);
        }
    }
}

/// A text holds another if and only if it is that text with something, or
/// nothing, before and after it.
pub proof fn law_a_text_holds_what_stands_in_it(
    head: Seq<char>,
    needle: Seq<char>,
    tail: Seq<char>,
    text: Seq<char>,
)
    ensures
        holds_text(head + needle + tail, needle),
        holds_text(text, needle) ==> exists|at: int|
            0 <= at <= text.len() - needle.len() && #[trigger] text.subrange(
                at,
                at + needle.len(),
            ) == needle,
        needle.len() > text.len() ==> !holds_text(text, needle),
{
    let all = head + needle + tail;
    assert(all.subrange(head.len() as int, head.len() as int + needle.len()) =~= needle);
    assert(stands_at(all, needle, head.len() as int));
    if holds_text(text, needle) {
        let at = choose|at: int| #[trigger] stands_at(text, needle, at);
        assert(text.subrange(at, at + needle.len()) == needle);
    }
}

/// Texts are joined in order, with the separator between each two and nowhere
/// else.
pub proof fn law_texts_join_in_order(parts: Seq<Seq<char>>, last: Seq<char>, sep: Seq<char>)
    ensures
        joined_texts(Seq::empty(), sep).len() == 0,
        joined_texts(seq![last], sep) == last,
        parts.len() > 0 ==> joined_texts(parts.push(last), sep) == joined_texts(parts, sep) + sep
            + last,
{
    assert(parts.push(last).drop_last() =~= parts);
}

} // verus!
