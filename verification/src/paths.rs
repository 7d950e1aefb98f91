//! File paths as raw bytes, the way Unix holds them.
use crate::text;
use vstd::prelude::*;
use vstd::utf8::encode_utf8;

verus! {

/// `name` below the directory `dir`: a separator stands between the two
/// unless `dir` is empty or ends in one, and an absolute name stands alone.
pub open spec fn joined(dir: Seq<u8>, name: Seq<u8>) -> Seq<u8> {
    if name.len() > 0 && name[0] == 47 {
        name
    } else if dir.len() == 0 || dir.last() == 47 {
        dir + name
    } else {
        dir + seq![47u8] + name
    }
}

/// A copy of raw bytes.
pub fn copy_bytes(bytes: &Vec<u8>) -> (copy: Vec<u8>)
    ensures
        copy@ == bytes@,
{
    let copy = bytes.clone();
    assert(copy@ =~= bytes@);
    copy
}

/// Appends the UTF-8 bytes of `tail`.
pub fn push_text(bytes: &mut Vec<u8>, tail: &str)
    ensures
        final(bytes)@ == old(bytes)@ + encode_utf8(tail@),
{
    let more = tail.as_bytes();
    let ghost start = bytes@;
    let mut i: usize = 0;
    while i < more.len()
        invariant
            i <= more@.len(),
            bytes@ =~= start + more@.subrange(0, i as int),
        decreases more@.len() - i,
    {
        bytes.push(more[i]);
        i += 1;
    }
    assert(more@.subrange(0, more@.len() as int) =~= more@);
}

/// The UTF-8 bytes of a text.
pub fn bytes_of(name: &str) -> (bytes: Vec<u8>)
    ensures
        bytes@ == encode_utf8(name@),
{
    let mut bytes: Vec<u8> = Vec::new();
    push_text(&mut bytes, name);
    assert(bytes@ =~= encode_utf8(name@));
    bytes
}

/// `name` below the directory `dir`.
pub fn join(dir: &Vec<u8>, name: &str) -> (path: Vec<u8>)
    ensures
        path@ == joined(dir@, encode_utf8(name@)),
{
    let tail = name.as_bytes();
    if tail.len() > 0 && tail[0] == 47 {
        return bytes_of(name);
    }
    let mut path = copy_bytes(dir);
    if dir.len() > 0 && dir[dir.len() - 1] != 47 {
        path.push(47);
        assert(path@ =~= dir@ + seq![47u8]);
    }
    push_text(&mut path, name);
    path
}

/// Whether raw bytes are those of a text.
pub fn same_bytes(bytes: &Vec<u8>, name: &str) -> (same: bool)
    ensures
        same == (bytes@ == encode_utf8(name@)),
{
    let other = name.as_bytes();
    if bytes.len() != other.len() {
        return false;
    }
    let mut i: usize = 0;
    while i < bytes.len()
        invariant
            i <= bytes@.len(),
            bytes@.len() == other@.len(),
            other@ == encode_utf8(name@),
            forall|j: int| 0 <= j < i ==> bytes@[j] == other@[j],
        decreases bytes@.len() - i,
    {
        if bytes[i] != other[i] {
            return false;
        }
        i += 1;
    }
    assert(bytes@ =~= other@);
    true
}

// ---------------------------------------------------------------- switches
/// Whether a text is one of the words that switch something off.
pub open spec fn off_word(word: Seq<char>) -> bool {
    let lowered = text::lower_text(word);
    lowered == "off"@ || lowered == "false"@ || lowered == "0"@ || lowered == "none"@
}

/// Whether raw bytes spell one of those words, in any ASCII case.
pub open spec fn is_off(value: Seq<u8>) -> bool {
    vstd::utf8::valid_utf8(value) && off_word(vstd::utf8::decode_utf8(value))
}

/// Whether `value` is `off`, `false`, `0` or `none` in any ASCII case.
pub fn os_str_is_off(value: &Vec<u8>) -> (off: bool)
    ensures
        off == is_off(value@),
{
    match text::utf8_text(value) {
        Some(word) => {
            let lowered = text::ascii_lower(word.as_str());
            text::same_text(lowered.as_str(), "off") || text::same_text(lowered.as_str(), "false")
                || text::same_text(lowered.as_str(), "0") || text::same_text(
                lowered.as_str(),
                "none",
            )
        },
        None => false,
    }
}

/// A name below a directory comes after the whole directory, with exactly one
/// separator added where the directory does not end in one; an absolute name
/// stands alone.
pub proof fn law_a_name_comes_after_its_directory(dir: Seq<u8>, name: Seq<u8>)
    ensures
        name.len() > 0 && name[0] == 47 ==> joined(dir, name) == name,
        !(name.len() > 0 && name[0] == 47) ==> {
            let path = joined(dir, name);
            &&& path.len() >= dir.len() + name.len()
            &&& path.take(dir.len() as int) == dir
            &&& path.skip(path.len() - name.len()) == name
            &&& dir.len() > 0 && dir.last() != 47 ==> path.len() == dir.len() + 1 + name.len()
                && path[dir.len() as int] == 47
            &&& dir.len() == 0 || dir.last() == 47 ==> path.len() == dir.len() + name.len()
        },
{
    if !(name.len() > 0 && name[0] == 47) {
        let path = joined(dir, name);
        assert(path.take(dir.len() as int) =~= dir);
        assert(path.skip(path.len() - name.len()) =~= name);
    }
}

/// Exactly four words switch something off, in any ASCII case.
pub proof fn law_four_words_switch_off(word: Seq<char>)
    ensures
        off_word(word) <==> text::lower_text(word) == "off"@ || text::lower_text(word) == "false"@
            || text::lower_text(word) == "0"@ || text::lower_text(word) == "none"@,
        off_word(text::lower_text(word)) == off_word(word),
        !off_word(Seq::empty()),
{
    let lowered = text::lower_text(word);
    assert(text::lower_text(lowered) =~= lowered) by {
        assert forall|i: int| 0 <= i < word.len() implies text::lower_text(lowered)[i]
            == lowered[i] by {
            text::law_lowering_is_by_letter(word, i);
        }
    }
    reveal_strlit("off");
    reveal_strlit("false");
    reveal_strlit("0");
    reveal_strlit("none");
    assert(text::lower_text(Seq::<char>::empty()).len() == 0);
}

} // verus!
