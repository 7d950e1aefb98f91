//! Filling in service templates.
use crate::error::EngineError;
use crate::text;
use vstd::prelude::*;

verus! {

/// The placeholder of a key.
pub open spec fn placeholder(key: Seq<char>) -> Seq<char> {
    "{{"@ + key + "}}"@
}

/// The pairs of key and value behind some strings.
pub open spec fn pairs(vars: Seq<(&str, String)>) -> Seq<(Seq<char>, Seq<char>)> {
    vars.map_values(|v: (&str, String)| (v.0@, v.1@))
}

/// `template` with each key's placeholder replaced by its value, key by key.
pub open spec fn filled(template: Seq<char>, vars: Seq<(Seq<char>, Seq<char>)>) -> Seq<char>
    decreases vars.len(),
{
    if vars.len() == 0 {
        template
    } else {
        text::replaced(
            filled(template, vars.drop_last()),
            placeholder(vars.last().0),
            vars.last().1,
        )
    }
}

/// A line that still holds a placeholder, trimmed.
pub open spec fn leftover(line: Seq<char>) -> Seq<Seq<char>> {
    if text::holds_text(line, "{{"@) {
        seq![text::trim_text(line)]
    } else {
        Seq::empty()
    }
}

/// The lines that still hold a placeholder, trimmed, in order.
pub open spec fn leftovers(out: Seq<char>) -> Seq<Seq<char>>
    decreases out.len(),
{
    if out.len() == 0 {
        Seq::empty()
    } else {
        proof {
            text::lemma_first_at_bounds(out, '\n');
        }
        match text::cut(out, '\n') {
            Some((line, rest)) => leftover(line) + leftovers(rest),
            None => leftover(out),
        }
    }
}

/// What the operator reads of a template that was not filled in.
pub open spec fn leftover_text(out: Seq<char>) -> Seq<char> {
    "service template contains unreplaced placeholders: "@ + text::joined_texts(
        leftovers(out),
        " | "@,
    )
}

fn push_leftover(found: &mut Vec<String>, line: &str)
    ensures
        text::texts(final(found)@) == text::texts(old(found)@) + leftover(line@),
{
    let ghost before = text::texts(found@);
    if text::contains_text(line, "{{") {
        found.push(text::trim(line));
        assert(text::texts(found@) =~= before + seq![text::trim_text(line@)]);
    } else {
        assert(before + Seq::<Seq<char>>::empty() =~= before);
    }
}

fn find_leftovers(out: &str) -> (found: Vec<String>)
    ensures
        text::texts(found@) == leftovers(out@),
{
    let mut found: Vec<String> = Vec::new();
    let mut rest = out.to_owned();
    assert(text::texts(found@) + leftovers(rest@) =~= leftovers(out@));
    loop
        invariant_except_break
            text::texts(found@) + leftovers(rest@) == leftovers(out@),
        ensures
            text::texts(found@) == leftovers(out@),
        decreases rest@.len(),
    {
        proof {
            text::lemma_first_at_bounds(rest@, '\n');
        }
        let ghost so_far = text::texts(found@);
        if rest.as_str().is_empty() {
            assert(text::texts(found@) =~= leftovers(out@));
            break ;
        }
        match text::split_once(rest.as_str(), '\n') {
            Some((line, tail)) => {
                push_leftover(&mut found, line.as_str());
                assert(so_far + (leftover(line@) + leftovers(tail@)) =~= text::texts(found@)
                    + leftovers(tail@));
                rest = tail;
            },
            None => {
                push_leftover(&mut found, rest.as_str());
                break ;
            },
        }
    }
    found
}

/// Fills in a template. A placeholder that is left over is an error, so that
/// a template and its values that drifted apart never ship.
pub fn render(template: &str, vars: &Vec<(&str, String)>) -> (rendered: Result<String, EngineError>)
    ensures
        rendered is Ok <==> !text::holds_text(filled(template@, pairs(vars@)), "{{"@),
        rendered matches Ok(out) ==> out@ == filled(template@, pairs(vars@)),
        rendered matches Err(e) ==> (e matches EngineError::Service(m) && m@ == leftover_text(
            filled(template@, pairs(vars@)),
        )),
{
    let ghost all = pairs(vars@);
    let mut out = template.to_owned();
    let mut i: usize = 0;
    assert(all.take(0) =~= Seq::<(Seq<char>, Seq<char>)>::empty());
    while i < vars.len()
        invariant
            i <= vars@.len(),
            all == pairs(vars@),
            out@ == filled(template@, all.take(i as int)),
        decreases vars@.len() - i,
    {
        let needle = "{{".to_owned().concat(vars[i].0).concat("}}");
        proof {
            reveal_strlit("{{");
            assert(needle@.len() >= "{{"@.len());
            assert(all.take(i + 1).drop_last() =~= all.take(i as int));
            assert(all.take(i + 1).last() == (vars@[i as int].0@, vars@[i as int].1@));
        }
        out = text::replace_all(out.as_str(), needle.as_str(), vars[i].1.as_str());
        i += 1;
    }
    assert(all.take(vars@.len() as int) =~= all);
    if text::contains_text(out.as_str(), "{{") {
        let found = find_leftovers(out.as_str());
        return Err(
            EngineError::Service(
                "service template contains unreplaced placeholders: ".to_owned().concat(
                    text::join_texts(&found, " | ").as_str(),
                ),
            ),
        );
    }
    Ok(out)
}

// ---------------------------------------------------------------- escaping
/// A character as it is written in a text node.
pub open spec fn escaped_char(c: char) -> Seq<char> {
    if c == '&' {
        "&amp;"@
    } else if c == '<' {
        "&lt;"@
    } else if c == '>' {
        "&gt;"@
    } else {
        seq![c]
    }
}

/// A text as it is written in a text node.
pub open spec fn escaped(value: Seq<char>) -> Seq<char>
    decreases value.len(),
{
    if value.len() == 0 {
        Seq::empty()
    } else {
        escaped(value.drop_last()) + escaped_char(value.last())
    }
}

/// Escapes what a text node of the launchd definition cannot hold.
pub fn xml_escape(value: &str) -> (out: String)
    ensures
        out@ == escaped(value@),
{
    let chars = text::chars_of(value);
    let mut out = String::new();
    let mut i: usize = 0;
    assert(chars@.take(0) =~= Seq::<char>::empty());
    assert(out@ =~= escaped(chars@.take(0)));
    while i < chars.len()
        invariant
            i <= chars@.len(),
            out@ == escaped(chars@.take(i as int)),
        decreases chars@.len() - i,
    {
        proof {
            assert(chars@.take(i + 1).drop_last() =~= chars@.take(i as int));
        }
        let ghost before = out@;
        let c = chars[i];
        if c == '&' {
            out.append("&amp;");
        } else if c == '<' {
            out.append("&lt;");
        } else if c == '>' {
            out.append("&gt;");
        } else {
            out.push(c);
            assert(out@ =~= before + seq![c]);
        }
        i += 1;
    }
    assert(chars@.take(chars@.len() as int) =~= value@);
    out
}

/// Escaped text holds no markup.
pub proof fn law_escaped_text_holds_no_markup(value: Seq<char>)
    ensures
        !escaped(value).contains('<'),
        !escaped(value).contains('>'),
    decreases value.len(),
{
    reveal_strlit("&amp;");
    reveal_strlit("&lt;");
    reveal_strlit("&gt;");
    if value.len() > 0 {
        law_escaped_text_holds_no_markup(value.drop_last());
        let head = escaped(value.drop_last());
        let tail = escaped_char(value.last());
        assert(!tail.contains('<') && !tail.contains('>'));
        assert forall|i: int| 0 <= i < (head + tail).len() implies (head + tail)[i] != '<' && (head
            + tail)[i] != '>' by {
            if i < head.len() {
                assert(head.contains(head[i]));
            } else {
                assert(tail.contains(tail[i - head.len()]));
            }
        }
    }
}

/// Text without markup is left as it is.
pub proof fn law_plain_text_is_not_escaped(value: Seq<char>)
    requires
        !value.contains('&'),
        !value.contains('<'),
        !value.contains('>'),
    ensures
        escaped(value) == value,
    decreases value.len(),
{
    if value.len() > 0 {
        let head = value.drop_last();
        assert(value[value.len() - 1] == value.last());
        assert forall|i: int| 0 <= i < head.len() implies head[i] != '&' && head[i] != '<'
            && head[i] != '>' by {
            assert(value[i] == head[i]);
        }
        law_plain_text_is_not_escaped(head);
        assert(escaped(value) =~= value);
    }
}

/// A character once some of the escapes were undone.
spec fn partly_char(c: char, lt: bool, gt: bool) -> Seq<char> {
    if c == '&' {
        "&amp;"@
    } else if c == '<' && lt {
        "&lt;"@
    } else if c == '>' && gt {
        "&gt;"@
    } else {
        seq![c]
    }
}

/// A text once some of its escapes were undone.
spec fn partly(value: Seq<char>, lt: bool, gt: bool) -> Seq<char>
    decreases value.len(),
{
    if value.len() == 0 {
        Seq::empty()
    } else {
        partly_char(value[0], lt, gt) + partly(value.skip(1), lt, gt)
    }
}

proof fn lemma_partly_last(value: Seq<char>, lt: bool, gt: bool)
    requires
        value.len() > 0,
    ensures
        partly(value, lt, gt) == partly(value.drop_last(), lt, gt) + partly_char(
            value.last(),
            lt,
            gt,
        ),
    decreases value.len(),
{
    let rest = value.skip(1);
    let last = partly_char(value.last(), lt, gt);
    if rest.len() == 0 {
        assert(partly(rest, lt, gt) =~= Seq::<char>::empty());
        assert(partly(value.drop_last(), lt, gt) =~= Seq::<char>::empty());
        assert(partly(value, lt, gt) =~= last);
        assert(Seq::<char>::empty() + last =~= last);
    } else {
        lemma_partly_last(rest, lt, gt);
        assert(rest.drop_last() =~= value.drop_last().skip(1));
        assert(value.drop_last()[0] == value[0]);
        let first = partly_char(value[0], lt, gt);
        assert(first + (partly(rest.drop_last(), lt, gt) + last) =~= (first + partly(
            rest.drop_last(),
            lt,
            gt,
        )) + last);
    }
}

proof fn lemma_escaped_is_partly(value: Seq<char>)
    ensures
        escaped(value) == partly(value, true, true),
    decreases value.len(),
{
    if value.len() > 0 {
        lemma_escaped_is_partly(value.drop_last());
        lemma_partly_last(value, true, true);
    }
}

/// What comes before the first occurrence is left as it is.
proof fn lemma_replaced_passes(
    head: Seq<char>,
    tail: Seq<char>,
    needle: Seq<char>,
    value: Seq<char>,
)
    requires
        needle.len() > 0,
        forall|k: int| 0 <= k < head.len() ==> !text::stands_at(head + tail, needle, k),
    ensures
        text::replaced(head + tail, needle, value) == head + text::replaced(tail, needle, value),
    decreases head.len(),
{
    let all = head + tail;
    if head.len() == 0 {
        assert(all =~= tail);
        assert(head + text::replaced(tail, needle, value) =~= text::replaced(tail, needle, value));
    } else {
        let rest = head.skip(1);
        assert(all.skip(1) =~= rest + tail);
        assert forall|k: int| 0 <= k < rest.len() implies !text::stands_at(
            rest + tail,
            needle,
            k,
        ) by {
            if text::stands_at(rest + tail, needle, k) {
                assert(all.subrange(k + 1, k + 1 + needle.len()) =~= (rest + tail).subrange(
                    k,
                    k + needle.len() as int,
                ));
                assert(text::stands_at(all, needle, k + 1));
            }
        }
        lemma_replaced_passes(rest, tail, needle, value);
        assert(!text::stands_at(all, needle, 0));
        assert(seq![all[0]] + (rest + text::replaced(tail, needle, value)) =~= head
            + text::replaced(tail, needle, value));
    }
}

/// An occurrence at the front is replaced.
proof fn lemma_replaced_hits(tail: Seq<char>, needle: Seq<char>, value: Seq<char>)
    requires
        needle.len() > 0,
    ensures
        text::replaced(needle + tail, needle, value) == value + text::replaced(tail, needle, value),
{
    let all = needle + tail;
    assert(all.subrange(0, needle.len() as int) =~= needle);
    assert(text::stands_at(all, needle, 0));
    assert(all.skip(needle.len() as int) =~= tail);
}

/// A character or another escape is no place where an escape stands.
proof fn lemma_no_escape_in(head: Seq<char>, tail: Seq<char>, needle: Seq<char>)
    requires
        needle.len() >= 2,
        needle[0] == '&',
        head.len() > 0,
        forall|k: int| 1 <= k < head.len() ==> head[k] != '&',
        head[0] == '&' ==> head.len() >= 2 && head[1] != needle[1],
    ensures
        forall|k: int| 0 <= k < head.len() ==> !text::stands_at(head + tail, needle, k),
{
    let all = head + tail;
    assert forall|k: int| 0 <= k < head.len() implies !text::stands_at(all, needle, k) by {
        if text::stands_at(all, needle, k) {
            let part = all.subrange(k, k + needle.len() as int);
            assert(part[0] == all[k]);
            assert(part[1] == all[k + 1]);
            assert(all[k] == head[k]);
        }
    }
}

proof fn lemma_undo_lt(value: Seq<char>)
    ensures
        text::replaced(partly(value, true, true), "&lt;"@, "<"@) == partly(value, false, true),
    decreases value.len(),
{
    reveal_strlit("&amp;");
    reveal_strlit("&lt;");
    reveal_strlit("&gt;");
    reveal_strlit("<");
    if value.len() > 0 {
        let rest = partly(value.skip(1), true, true);
        lemma_undo_lt(value.skip(1));
        if value[0] == '<' {
            lemma_replaced_hits(rest, "&lt;"@, "<"@);
            assert("<"@ =~= seq!['<']);
        } else {
            let head = partly_char(value[0], true, true);
            lemma_no_escape_in(head, rest, "&lt;"@);
            lemma_replaced_passes(head, rest, "&lt;"@, "<"@);
        }
    }
}

proof fn lemma_undo_gt(value: Seq<char>)
    ensures
        text::replaced(partly(value, false, true), "&gt;"@, ">"@) == partly(value, false, false),
    decreases value.len(),
{
    reveal_strlit("&amp;");
    reveal_strlit("&gt;");
    reveal_strlit(">");
    if value.len() > 0 {
        let rest = partly(value.skip(1), false, true);
        lemma_undo_gt(value.skip(1));
        if value[0] == '>' {
            lemma_replaced_hits(rest, "&gt;"@, ">"@);
            assert(">"@ =~= seq!['>']);
        } else {
            let head = partly_char(value[0], false, true);
            lemma_no_escape_in(head, rest, "&gt;"@);
            lemma_replaced_passes(head, rest, "&gt;"@, ">"@);
        }
    }
}

proof fn lemma_undo_amp(value: Seq<char>)
    ensures
        text::replaced(partly(value, false, false), "&amp;"@, "&"@) == value,
    decreases value.len(),
{
    reveal_strlit("&amp;");
    reveal_strlit("&");
    if value.len() > 0 {
        let rest = partly(value.skip(1), false, false);
        lemma_undo_amp(value.skip(1));
        if value[0] == '&' {
            lemma_replaced_hits(rest, "&amp;"@, "&"@);
            assert("&"@ + value.skip(1) =~= value);
        } else {
            let head = partly_char(value[0], false, false);
            lemma_no_escape_in(head, rest, "&amp;"@);
            lemma_replaced_passes(head, rest, "&amp;"@, "&"@);
            assert(head + value.skip(1) =~= value);
        }
    }
}

/// What a reader of the definition makes of an escaped text.
pub open spec fn unescaped(text: Seq<char>) -> Seq<char> {
    text::replaced(
        text::replaced(text::replaced(text, "&lt;"@, "<"@), "&gt;"@, ">"@),
        "&amp;"@,
        "&"@,
    )
}

/// Undoing the replacements gives the text back.
pub proof fn law_unescaping_undoes_escaping(value: Seq<char>)
    ensures
        unescaped(escaped(value)) == value,
{
    lemma_escaped_is_partly(value);
    lemma_undo_lt(value);
    lemma_undo_gt(value);
    lemma_undo_amp(value);
}

/// Different texts are escaped differently.
pub proof fn law_escaping_is_injective(a: Seq<char>, b: Seq<char>)
    requires
        escaped(a) == escaped(b),
    ensures
        a == b,
{
    law_unescaping_undoes_escaping(a);
    law_unescaping_undoes_escaping(b);
}

} // verus!
