//! JSON strings as they are written out.

use crate::text::{join, join_text};
use vstd::prelude::*;

verus! {

/// The hexadecimal digit with the value `d`, in lower case.
pub open spec fn hex_digit(d: int) -> char {
    if d < 10 {
        (48 + d) as char
    } else {
        (87 + d) as char
    }
}

/// How `c` is written inside a JSON string.
pub open spec fn json_escaped(c: char) -> Seq<char> {
    if c == '"' || c == '\\' {
        seq!['\\', c]
    } else if c == '\u{8}' {
        seq!['\\', 'b']
    } else if c == '\t' {
        seq!['\\', 't']
    } else if c == '\n' {
        seq!['\\', 'n']
    } else if c == '\u{c}' {
        seq!['\\', 'f']
    } else if c == '\r' {
        seq!['\\', 'r']
    } else if (c as int) < 0x20 {
        seq!['\\', 'u', '0', '0', hex_digit((c as int) / 16), hex_digit((c as int) % 16)]
    } else {
        seq![c]
    }
}

/// The characters of `text`, each as it is written inside a JSON string.
pub open spec fn json_contents(text: Seq<char>) -> Seq<char>
    decreases text.len(),
{
    if text.len() == 0 {
        Seq::empty()
    } else {
        json_contents(text.drop_last()) + json_escaped(text.last())
    }
}

/// `text` as a JSON string, in its quotes.
pub open spec fn json_string(text: Seq<char>) -> Seq<char> {
    seq!['"'] + json_contents(text) + seq!['"']
}

/// `serde_json::Value::to_string` writes a string out in its quotes. Quotes,
/// backslashes and control characters are escaped, everything else stands for
/// itself.
#[verifier::external_body]
pub(crate) fn json_string_text(text: &str) -> (written: String)
    ensures
        written@ == json_string(text@),
{
    serde_json::Value::String(text.to_string()).to_string()
}

/// The texts as a JSON array of strings.
pub open spec fn json_strings(texts: Seq<Seq<char>>) -> Seq<char> {
    "["@ + join(texts.map_values(|text: Seq<char>| json_string(text)), ","@) + "]"@
}

/// The texts as a JSON array of strings.
pub fn json_strings_text(texts: &Vec<String>) -> (written: String)
    ensures
        written@ == json_strings(texts.deep_view()),
{
    let ghost model = texts.deep_view();
    let ghost all = model.map_values(|text: Seq<char>| json_string(text));
    let mut items: Vec<String> = Vec::new();
    let mut i: usize = 0;
    while i < texts.len()
        invariant
            i <= texts.len(),
            model == texts.deep_view(),
            all == model.map_values(|text: Seq<char>| json_string(text)),
            items.len() == i,
            forall|k: int| 0 <= k < i ==> (#[trigger] items@[k])@ == all[k],
        decreases texts.len() - i,
    {
        items.push(json_string_text(texts[i].as_str()));
        i += 1;
    }
    assert(items.deep_view() =~= all);
    "[".to_string().concat(join_text(&items, ",").as_str()).concat("]")
}

/// The members of a JSON object whose values are texts, written out.
pub open spec fn json_members(members: Seq<(Seq<char>, Seq<char>)>) -> Seq<char> {
    "{"@ + join(
        members.map_values(
            |member: (Seq<char>, Seq<char>)| json_string(member.0) + ":"@ + json_string(member.1),
        ),
        ","@,
    ) + "}"@
}

/// Write a JSON object out whose values are texts.
pub fn json_members_text(members: &Vec<(String, String)>) -> (written: String)
    ensures
        written@ == json_members(members.deep_view()),
{
    let ghost model = members.deep_view();
    let ghost all = model.map_values(
        |member: (Seq<char>, Seq<char>)| json_string(member.0) + ":"@ + json_string(member.1),
    );
    let mut items: Vec<String> = Vec::new();
    let mut i: usize = 0;
    while i < members.len()
        invariant
            i <= members.len(),
            model == members.deep_view(),
            all == model.map_values(
                |member: (Seq<char>, Seq<char>)|
                    json_string(member.0) + ":"@ + json_string(member.1),
            ),
            items.len() == i,
            forall|k: int| 0 <= k < i ==> (#[trigger] items@[k])@ == all[k],
        decreases members.len() - i,
    {
        assert(model[i as int] == (members@[i as int].0@, members@[i as int].1@));
        items.push(
            json_string_text(members[i].0.as_str()).concat(":").concat(
                json_string_text(members[i].1.as_str()).as_str(),
            ),
        );
        i += 1;
    }
    assert(items.deep_view() =~= all);
    "{".to_string().concat(join_text(&items, ",").as_str()).concat("}")
}

/// Whether `text` holds no line break.
pub open spec fn is_one_line(text: Seq<char>) -> bool {
    forall|i: int| 0 <= i < text.len() ==> #[trigger] text[i] != '\n'
}

proof fn lemma_one_lines_together(a: Seq<char>, b: Seq<char>)
    requires
        is_one_line(a),
        is_one_line(b),
    ensures
        is_one_line(a + b),
{
    assert forall|i: int| 0 <= i < (a + b).len() implies #[trigger] (a + b)[i] != '\n' by {
        if i < a.len() {
            assert((a + b)[i] == a[i]);
        } else {
            assert((a + b)[i] == b[i - a.len()]);
        }
    }
}

proof fn lemma_joined_on_one_line(parts: Seq<Seq<char>>, separator: Seq<char>)
    requires
        is_one_line(separator),
        forall|i: int| 0 <= i < parts.len() ==> is_one_line(#[trigger] parts[i]),
    ensures
        is_one_line(join(parts, separator)),
    decreases parts.len(),
{
    if parts.len() > 1 {
        assert forall|i: int| 0 <= i < parts.drop_last().len() implies is_one_line(
            #[trigger] parts.drop_last()[i],
        ) by {
            assert(parts.drop_last()[i] == parts[i]);
        }
        lemma_joined_on_one_line(parts.drop_last(), separator);
        lemma_one_lines_together(join(parts.drop_last(), separator), separator);
        lemma_one_lines_together(join(parts.drop_last(), separator) + separator, parts.last());
    }
}

proof fn lemma_escaped_on_one_line(c: char)
    ensures
        is_one_line(json_escaped(c)),
{
    if (c as int) < 0x20 {
        let high = hex_digit((c as int) / 16);
        let low = hex_digit((c as int) % 16);
        assert(high as int == 48 || high as int == 49);
        assert((low as int) >= 48);
    }
}

proof fn lemma_contents_on_one_line(text: Seq<char>)
    ensures
        is_one_line(json_contents(text)),
    decreases text.len(),
{
    if text.len() > 0 {
        lemma_contents_on_one_line(text.drop_last());
        lemma_escaped_on_one_line(text.last());
        lemma_one_lines_together(json_contents(text.drop_last()), json_escaped(text.last()));
    }
}

/// A text is written as a JSON string on one line, whatever lines it has itself.
pub proof fn json_string_is_one_line(text: Seq<char>)
    ensures
        is_one_line(json_string(text)),
{
    lemma_contents_on_one_line(text);
    lemma_one_lines_together(seq!['"'], json_contents(text));
    lemma_one_lines_together(seq!['"'] + json_contents(text), seq!['"']);
}

/// Texts are written as a JSON object on one line, whatever lines they have
/// themselves.
pub proof fn json_members_are_one_line(members: Seq<(Seq<char>, Seq<char>)>)
    ensures
        is_one_line(json_members(members)),
{
    reveal_strlit(":");
    reveal_strlit(",");
    reveal_strlit("{");
    reveal_strlit("}");
    let written = members.map_values(
        |member: (Seq<char>, Seq<char>)| json_string(member.0) + ":"@ + json_string(member.1),
    );
    assert forall|i: int| 0 <= i < written.len() implies is_one_line(#[trigger] written[i]) by {
        json_string_is_one_line(members[i].0);
        json_string_is_one_line(members[i].1);
        lemma_one_lines_together(json_string(members[i].0), ":"@);
        lemma_one_lines_together(
            json_string(members[i].0) + ":"@,
            json_string(members[i].1),
        );
    }
    lemma_joined_on_one_line(written, ","@);
    lemma_one_lines_together("{"@, join(written, ","@));
    lemma_one_lines_together("{"@ + join(written, ","@), "}"@);
}

proof fn lemma_join_with_one_more(parts: Seq<Seq<char>>, part: Seq<char>, separator: Seq<char>)
    ensures
        join(parts.push(part), separator) == if parts.len() == 0 {
            part
        } else {
            join(parts, separator) + separator + part
        },
{
    assert(parts.push(part).drop_last() =~= parts);
}

/// A list of texts is written with all of them in their order, each as a JSON string,
/// with commas between them.
pub proof fn lists_are_written_item_by_item(texts: Seq<Seq<char>>, text: Seq<char>)
    ensures
        json_strings(Seq::empty()) == "[]"@,
        json_strings(seq![text]) == "["@ + json_string(text) + "]"@,
        texts.len() > 0 ==> json_strings(texts.push(text)) == json_strings(texts).drop_last()
            + ","@ + json_string(text) + "]"@,
{
    reveal_strlit("[");
    reveal_strlit("]");
    reveal_strlit("[]");
    let written = texts.map_values(|text: Seq<char>| json_string(text));
    lemma_join_with_one_more(written, json_string(text), ","@);
    assert(texts.push(text).map_values(|text: Seq<char>| json_string(text)) =~= written.push(
        json_string(text),
    ));
    assert(seq![text].map_values(|text: Seq<char>| json_string(text)) =~= seq![json_string(text)]);
    assert(Seq::<Seq<char>>::empty().map_values(|text: Seq<char>| json_string(text))
        =~= Seq::empty());
    assert(json_strings(Seq::empty()) =~= "[]"@);
    assert(json_strings(texts).drop_last() =~= "["@ + join(written, ","@));
    if texts.len() > 0 {
        assert("["@ + (join(written, ","@) + ","@ + json_string(text)) =~= "["@ + join(
            written,
            ","@,
        ) + ","@ + json_string(text));
    }
}

/// An object is written with all of its members in their order, each with its name and
/// its value as JSON strings, with commas between them.
pub proof fn objects_are_written_member_by_member(
    members: Seq<(Seq<char>, Seq<char>)>,
    name: Seq<char>,
    value: Seq<char>,
)
    ensures
        json_members(Seq::empty()) == "{}"@,
        json_members(seq![(name, value)]) == "{"@ + json_string(name) + ":"@ + json_string(value)
            + "}"@,
        members.len() > 0 ==> json_members(members.push((name, value))) == json_members(
            members,
        ).drop_last() + ","@ + json_string(name) + ":"@ + json_string(value) + "}"@,
{
    reveal_strlit("{");
    reveal_strlit("}");
    reveal_strlit("{}");
    let write = |member: (Seq<char>, Seq<char>)|
        json_string(member.0) + ":"@ + json_string(member.1);
    let written = members.map_values(write);
    let item = json_string(name) + ":"@ + json_string(value);
    lemma_join_with_one_more(written, item, ","@);
    assert(members.push((name, value)).map_values(write) =~= written.push(item));
    assert(seq![(name, value)].map_values(write) =~= seq![item]);
    assert(Seq::<(Seq<char>, Seq<char>)>::empty().map_values(write) =~= Seq::empty());
    assert(json_members(Seq::empty()) =~= "{}"@);
    assert("{"@ + item + "}"@ =~= "{"@ + json_string(name) + ":"@ + json_string(value) + "}"@);
    assert(json_members(members).drop_last() =~= "{"@ + join(written, ","@));
    if members.len() > 0 {
        assert("{"@ + (join(written, ","@) + ","@ + item) + "}"@ =~= "{"@ + join(written, ","@)
            + ","@ + json_string(name) + ":"@ + json_string(value) + "}"@);
    }
}

pub(crate) proof fn lemma_one_member(name: Seq<char>, value: Seq<char>)
    ensures
        json_members(seq![(name, value)]) == "{"@ + json_string(name) + ":"@ + json_string(value)
            + "}"@,
{
    objects_are_written_member_by_member(Seq::empty(), name, value);
}

pub(crate) proof fn lemma_two_members(
    first: Seq<char>,
    first_value: Seq<char>,
    second: Seq<char>,
    second_value: Seq<char>,
)
    ensures
        json_members(seq![(first, first_value), (second, second_value)]) == "{"@ + json_string(
            first,
        ) + ":"@ + json_string(first_value) + ","@ + json_string(second) + ":"@ + json_string(
            second_value,
        ) + "}"@,
{
    lemma_one_member(first, first_value);
    objects_are_written_member_by_member(seq![(first, first_value)], second, second_value);
    assert(seq![(first, first_value)].push((second, second_value)) =~= seq![
        (first, first_value),
        (second, second_value),
    ]);
    reveal_strlit("}");
    let start = "{"@ + json_string(first) + ":"@ + json_string(first_value);
    assert((start + "}"@).drop_last() =~= start);
}

pub(crate) proof fn lemma_three_members(
    first: Seq<char>,
    first_value: Seq<char>,
    second: Seq<char>,
    second_value: Seq<char>,
    third: Seq<char>,
    third_value: Seq<char>,
)
    ensures
        json_members(seq![(first, first_value), (second, second_value), (third, third_value)])
            == "{"@ + json_string(first) + ":"@ + json_string(first_value) + ","@ + json_string(
            second,
        ) + ":"@ + json_string(second_value) + ","@ + json_string(third) + ":"@ + json_string(
            third_value,
        ) + "}"@,
{
    lemma_two_members(first, first_value, second, second_value);
    let two = seq![(first, first_value), (second, second_value)];
    objects_are_written_member_by_member(two, third, third_value);
    assert(two.push((third, third_value)) =~= seq![
        (first, first_value),
        (second, second_value),
        (third, third_value),
    ]);
    reveal_strlit("}");
    let start = "{"@ + json_string(first) + ":"@ + json_string(first_value) + ","@ + json_string(
        second,
    ) + ":"@ + json_string(second_value);
    assert((start + "}"@).drop_last() =~= start);
}

/// A JSON string is its text between quotes, character by character: a quote, a
/// backslash and each control character by its escape, every other one as it is.
pub proof fn strings_are_escaped_character_by_character(text: Seq<char>, c: char)
    ensures
        json_string(Seq::empty()) == seq!['"', '"'],
        json_string(text.push(c)) == json_string(text).drop_last() + (if c == '"' {
            seq!['\\', '"']
        } else if c == '\\' {
            seq!['\\', '\\']
        } else if c == '\n' {
            seq!['\\', 'n']
        } else if c == '\r' {
            seq!['\\', 'r']
        } else if c == '\t' {
            seq!['\\', 't']
        } else if c as int == 8 {
            seq!['\\', 'b']
        } else if c as int == 12 {
            seq!['\\', 'f']
        } else if (c as int) < 10 {
            seq!['\\', 'u', '0', '0', '0', (48 + c as int) as char]
        } else if (c as int) < 16 {
            seq!['\\', 'u', '0', '0', '0', (87 + c as int) as char]
        } else if (c as int) < 26 {
            seq!['\\', 'u', '0', '0', '1', (32 + c as int) as char]
        } else if (c as int) < 32 {
            seq!['\\', 'u', '0', '0', '1', (71 + c as int) as char]
        } else {
            seq![c]
        }) + seq!['"'],
{
    assert(text.push(c).drop_last() =~= text);
    assert(json_string(text).drop_last() =~= seq!['"'] + json_contents(text));
    assert(json_string(Seq::empty()) =~= seq!['"', '"']);
    assert(48 as char == '0' && 49 as char == '1');
    assert(seq!['"'] + (json_contents(text) + json_escaped(c)) =~= seq!['"'] + json_contents(text)
        + json_escaped(c));
}

}
