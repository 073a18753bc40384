//! Writing values as compact JSON text: numbers, strings, arrays and objects.

use vstd::prelude::*;
use vstd::string::StringExecFns;

verus! {

/// The decimal digit for `d`, a number below ten.
pub open spec fn digit(d: int) -> char {
    seq!['0', '1', '2', '3', '4', '5', '6', '7', '8', '9'][d]
}

/// `n` in decimal digits, with no leading zero.
pub open spec fn decimal(n: nat) -> Seq<char>
    decreases n,
{
    if n < 10 {
        seq![digit(n as int)]
    } else {
        decimal(n / 10) + seq![digit((n % 10) as int)]
    }
}

/// The lower-case hexadecimal digit for `d`, a number below sixteen.
pub open spec fn hex_digit(d: int) -> char {
    seq!['0', '1', '2', '3', '4', '5', '6', '7', '8', '9', 'a', 'b', 'c', 'd', 'e', 'f'][d]
}

/// One character as it stands inside a JSON string: the quote, the backslash
/// and the control characters below U+0020 are escaped, all others stand for
/// themselves.
pub open spec fn escaped(c: char) -> Seq<char> {
    if c == '"' {
        seq!['\\', '"']
    } else if c == '\\' {
        seq!['\\', '\\']
    } else if c == '\u{8}' {
        seq!['\\', 'b']
    } else if c == '\t' {
        seq!['\\', 't']
    } else if c == '\n' {
        seq!['\\', 'n']
    } else if c == '\u{c}' {
        seq!['\\', 'f']
    } else if c == '\r' {
        seq!['\\', 'r']
    } else if (c as u32) < 0x20 {
        seq!['\\', 'u', '0', '0', hex_digit((c as int) / 16), hex_digit((c as int) % 16)]
    } else {
        seq![c]
    }
}

/// The characters of `s`, each one escaped.
pub open spec fn escaped_text(s: Seq<char>) -> Seq<char>
    decreases s.len(),
{
    if s.len() == 0 {
        Seq::empty()
    } else {
        escaped_text(s.drop_last()) + escaped(s.last())
    }
}

/// `s` as a JSON string: escaped, between double quotes.
pub open spec fn quoted(s: Seq<char>) -> Seq<char> {
    seq!['"'] + escaped_text(s) + seq!['"']
}

/// `items` one after another with a comma between neighbours.
pub open spec fn joined(items: Seq<Seq<char>>) -> Seq<char>
    decreases items.len(),
{
    if items.len() == 0 {
        Seq::empty()
    } else if items.len() == 1 {
        items[0]
    } else {
        joined(items.drop_last()) + seq![','] + items.last()
    }
}

/// A JSON array of values already written as text.
pub open spec fn array_text(items: Seq<Seq<char>>) -> Seq<char> {
    seq!['['] + joined(items) + seq![']']
}

/// One member of an object: its name as a JSON string, a colon, its value.
pub open spec fn member_text(name: Seq<char>, value: Seq<char>) -> Seq<char> {
    quoted(name) + seq![':'] + value
}

/// A JSON object of members whose values are already written as text, in the
/// order given.
pub open spec fn object_text(members: Seq<(Seq<char>, Seq<char>)>) -> Seq<char> {
    seq!['{'] + joined(Seq::new(members.len(), |i: int| member_text(members[i].0, members[i].1)))
        + seq!['}']
}

/// The texts that a vector of strings holds.
pub open spec fn texts(items: Seq<String>) -> Seq<Seq<char>> {
    Seq::new(items.len(), |i: int| items[i]@)
}

/// The names and values that a vector of members holds.
pub open spec fn pairs(members: Seq<(String, String)>) -> Seq<(Seq<char>, Seq<char>)> {
    Seq::new(members.len(), |i: int| (members[i].0@, members[i].1@))
}

/// `serde_json`'s serialisation of a string value, through `Display` for
/// `serde_json::Value`: the text between double quotes, with `"` and `\`
/// behind a backslash, the control characters below U+0020 as `\b`, `\t`,
/// `\n`, `\f`, `\r` or `\u00` and two lower-case hexadecimal digits, and every
/// other character unchanged.
#[verifier::external_body]
fn quote(s: &str) -> (text: String)
    ensures
        text@ == quoted(s@),
{
    serde_json::Value::from(s).to_string()
}

fn digit_text(d: u64) -> (text: &'static str)
    requires
        d < 10,
    ensures
        text@ == seq![digit(d as int)],
{
    proof {
        reveal_strlit("0");
        reveal_strlit("1");
        reveal_strlit("2");
        reveal_strlit("3");
        reveal_strlit("4");
        reveal_strlit("5");
        reveal_strlit("6");
        reveal_strlit("7");
        reveal_strlit("8");
        reveal_strlit("9");
    }
    let text = if d == 0 {
        "0"
    } else if d == 1 {
        "1"
    } else if d == 2 {
        "2"
    } else if d == 3 {
        "3"
    } else if d == 4 {
        "4"
    } else if d == 5 {
        "5"
    } else if d == 6 {
        "6"
    } else if d == 7 {
        "7"
    } else if d == 8 {
        "8"
    } else {
        "9"
    };
    text
}

/// Writes an unsigned integer as a JSON number.
pub fn number(n: u64) -> (text: String)
    ensures
        text@ == decimal(n as nat),
    decreases n,
{
    if n < 10 {
        digit_text(n).to_owned()
    } else {
        let mut text = number(n / 10);
        text.append(digit_text(n % 10));
        text
    }
}

/// Writes a string as a JSON string.
pub fn string(s: &str) -> (text: String)
    ensures
        text@ == quoted(s@),
{
    quote(s)
}

/// Puts commas between texts.
fn join(items: &Vec<String>) -> (text: String)
    ensures
        text@ == joined(texts(items@)),
{
    let mut text = String::new();
    let mut i: usize = 0;
    while i < items.len()
        invariant
            i <= items@.len(),
            text@ == joined(texts(items@).subrange(0, i as int)),
        decreases items@.len() - i,
    {
        proof {
            let before = texts(items@).subrange(0, i as int);
            let after = texts(items@).subrange(0, i + 1);
            assert(after.drop_last() =~= before);
        }
        if i > 0 {
            text.append(",");
            proof {
                reveal_strlit(",");
            }
        }
        text.append(items[i].as_str());
        i += 1;
    }
    assert(texts(items@).subrange(0, items@.len() as int) =~= texts(items@));
    text
}

/// Writes a JSON array whose items are already written as text.
pub fn array(items: &Vec<String>) -> (text: String)
    ensures
        text@ == array_text(texts(items@)),
{
    proof {
        reveal_strlit("[");
        reveal_strlit("]");
    }
    let mut text = "[".to_owned();
    let inner = join(items);
    text.append(inner.as_str());
    text.append("]");
    text
}

/// Writes a JSON object. Each member is a name and a value already written
/// as text; the members keep their order.
pub fn object(members: &Vec<(String, String)>) -> (text: String)
    ensures
        text@ == object_text(pairs(members@)),
{
    let mut written: Vec<String> = Vec::new();
    let mut i: usize = 0;
    while i < members.len()
        invariant
            i <= members@.len(),
            written@.len() == i,
            forall|k: int|
                0 <= k < i ==> (#[trigger] written@[k])@ == member_text(
                    members@[k].0@,
                    members@[k].1@,
                ),
        decreases members@.len() - i,
    {
        proof {
            reveal_strlit(":");
        }
        let mut member = quote(members[i].0.as_str());
        member.append(":");
        member.append(members[i].1.as_str());
        written.push(member);
        i += 1;
    }
    proof {
        reveal_strlit("{");
        reveal_strlit("}");
        let all = pairs(members@);
        assert(texts(written@) =~= Seq::new(
            all.len(),
            |k: int| member_text(all[k].0, all[k].1),
        ));
    }
    let mut text = "{".to_owned();
    let inner = join(&written);
    text.append(inner.as_str());
    text.append("}");
    text
}

/// Whether no character of `s` needs an escape.
pub open spec fn is_plain(s: Seq<char>) -> bool {
    forall|i: int| 0 <= i < s.len() ==> escaped(#[trigger] s[i]) == seq![s[i]]
}

/// A text without quotes, backslashes and control characters is written as
/// it is, between double quotes.
pub proof fn plain_text_is_quoted_as_it_is(s: Seq<char>)
    requires
        is_plain(s),
    ensures
        escaped_text(s) == s,
        quoted(s) == seq!['"'] + s + seq!['"'],
    decreases s.len(),
{
    if s.len() > 0 {
        plain_text_is_quoted_as_it_is(s.drop_last());
    }
}

} // verus!
