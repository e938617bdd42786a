//! JSON text: what this library takes from `serde_json`, and the verified
//! object writer that lays out the protocol's JSON objects.

use vstd::prelude::*;

verus! {

/// Whether `text` is one well-formed JSON value, as `serde_json` judges it.
pub uninterp spec fn json_valid(text: Seq<char>) -> bool;

/// A lowercase hexadecimal digit.
pub open spec fn hex_digit(d: nat) -> char {
    if d < 10 {
        (d + 48) as char
    } else {
        (d + 87) as char
    }
}

/// How one character stands inside a JSON string literal: `"` and `\` and
/// the control characters are escaped, with the short forms where JSON has
/// them and `\u00XX` otherwise; every other character stands as it is.
pub open spec fn escaped_char(c: char) -> Seq<char> {
    let n = c as u32;
    if c == '"' {
        seq!['\\', '"']
    } else if c == '\\' {
        seq!['\\', '\\']
    } else if n == 8 {
        seq!['\\', 'b']
    } else if n == 9 {
        seq!['\\', 't']
    } else if n == 10 {
        seq!['\\', 'n']
    } else if n == 12 {
        seq!['\\', 'f']
    } else if n == 13 {
        seq!['\\', 'r']
    } else if n < 32 {
        seq!['\\', 'u', '0', '0', hex_digit((n / 16) as nat), hex_digit((n % 16) as nat)]
    } else {
        seq![c]
    }
}

/// The characters of `s`, each escaped.
pub open spec fn escaped(s: Seq<char>) -> Seq<char>
    decreases s.len(),
{
    if s.len() == 0 {
        Seq::empty()
    } else {
        escaped(s.drop_last()) + escaped_char(s.last())
    }
}

/// The JSON string literal for `s`, quotes included.
pub open spec fn json_quoted(s: Seq<char>) -> Seq<char> {
    seq!['"'] + escaped(s) + seq!['"']
}

/// Relies on `serde_json::from_str` into a `serde_json::Value`: it succeeds
/// exactly when the text is one well-formed JSON value.
#[verifier::external_body]
pub(crate) fn is_json(text: &str) -> (r: bool)
    ensures
        r == json_valid(text@),
{
    serde_json::from_str::<serde_json::Value>(text).is_ok()
}

/// Relies on `serde_json::to_string` applied to a `&str`: it writes `"`, each
/// character through the escape table of `format_escaped_str_contents`, and
/// `"`; writing into its buffer never fails.
#[verifier::external_body]
pub(crate) fn quote(s: &str) -> (r: String)
    ensures
        r@ == json_quoted(s@),
{
    match serde_json::to_string(s) {
        Ok(t) => t,
        Err(_) => String::new(),
    }
}

/// One `"key":value` member of a JSON object.
pub open spec fn member(key: Seq<char>, value: Seq<char>) -> Seq<char> {
    json_quoted(key) + seq![':'] + value
}

/// The items separated by commas.
pub open spec fn joined(items: Seq<Seq<char>>) -> Seq<char>
    decreases items.len(),
{
    if items.len() == 0 {
        Seq::empty()
    } else if items.len() == 1 {
        items[0]
    } else {
        joined(items.drop_last()) + seq![','] + items.last()
    }
}

/// A JSON object with the given members, in order.
pub open spec fn object(members: Seq<Seq<char>>) -> Seq<char> {
    seq!['{'] + joined(members) + seq!['}']
}

/// A JSON array with the given elements, in order.
pub open spec fn array(elements: Seq<Seq<char>>) -> Seq<char> {
    seq!['['] + joined(elements) + seq![']']
}

/// The JSON word `null`.
pub open spec fn null_text() -> Seq<char> {
    seq!['n', 'u', 'l', 'l']
}

/// The member for an optional string: none where the value is absent.
pub open spec fn opt_str_member(key: Seq<char>, v: Option<String>) -> Seq<Seq<char>> {
    match v {
        Some(s) => seq![member(key, json_quoted(s@))],
        None => Seq::empty(),
    }
}

/// The member for an optional number: none where the value is absent.
pub open spec fn opt_num_member(key: Seq<char>, v: Option<u64>) -> Seq<Seq<char>> {
    match v {
        Some(n) => seq![member(key, decimal(n as nat))],
        None => Seq::empty(),
    }
}

/// The decimal digit character for `d`.
pub open spec fn digit_char(d: nat) -> char {
    ((d % 10) + 48) as char
}

/// The decimal numeral of `n`, without leading zeros.
pub open spec fn decimal(n: nat) -> Seq<char>
    decreases n,
{
    if n < 10 {
        seq![digit_char(n)]
    } else {
        decimal(n / 10) + seq![digit_char(n % 10)]
    }
}

fn digit_text(d: u64) -> (r: &'static str)
    requires
        d < 10,
    ensures
        r@ == seq![digit_char(d as nat)],
{
    proof {
        reveal_strlit("0");
        reveal_strlit("1");
        reveal_strlit("2");
        reveal_strlit("3");
        reveal_strlit("4");
        reveal_strlit("5");
        reveal_strlit("6");
        reveal_strlit("7");
        reveal_strlit("8");
        reveal_strlit("9");
    }
    match d {
        0 => "0",
        1 => "1",
        2 => "2",
        3 => "3",
        4 => "4",
        5 => "5",
        6 => "6",
        7 => "7",
        8 => "8",
        _ => "9",
    }
}

/// Appends the decimal numeral of `n`.
pub(crate) fn push_decimal(out: &mut String, n: u64)
    ensures
        final(out)@ == old(out)@ + decimal(n as nat),
    decreases n,
{
    if n < 10 {
        out.append(digit_text(n));
    } else {
        push_decimal(out, n / 10);
        out.append(digit_text(n % 10));
    }
}

/// The decimal numeral of `n` as text.
pub fn decimal_text(n: u64) -> (r: String)
    ensures
        r@ == decimal(n as nat),
{
    let mut out = String::new();
    push_decimal(&mut out, n);
    proof {
        assert(out@ =~= decimal(n as nat));
    }
    out
}

/// Writes a JSON object or array member by member; what it holds is always
/// the opening bracket followed by the members so far, comma-separated.
pub struct ObjectWriter {
    text: String,
    empty: bool,
    items: Ghost<Seq<Seq<char>>>,
}

impl ObjectWriter {
    /// The members written so far.
    pub closed spec fn members(&self) -> Seq<Seq<char>> {
        self.items@
    }

    /// The writer's invariant: its text is `open` then the joined members.
    pub closed spec fn wf(&self, open: char) -> bool {
        &&& self.text@ == seq![open] + joined(self.items@)
        &&& self.empty == (self.items@.len() == 0)
    }

    pub fn new_object() -> (r: ObjectWriter)
        ensures
            r.wf('{'),
            r.members() == Seq::<Seq<char>>::empty(),
    {
        let mut text = String::new();
        proof {
            reveal_strlit("{");
        }
        text.append("{");
        assert(text@ =~= seq!['{'] + joined(Seq::<Seq<char>>::empty()));
        ObjectWriter { text, empty: true, items: Ghost(Seq::empty()) }
    }

    pub fn new_array() -> (r: ObjectWriter)
        ensures
            r.wf('['),
            r.members() == Seq::<Seq<char>>::empty(),
    {
        let mut text = String::new();
        proof {
            reveal_strlit("[");
        }
        text.append("[");
        assert(text@ =~= seq!['['] + joined(Seq::<Seq<char>>::empty()));
        ObjectWriter { text, empty: true, items: Ghost(Seq::empty()) }
    }

    /// Appends one element, already written as JSON text.
    pub fn element(&mut self, value: &str)
        requires
            old(self).wf('{') || old(self).wf('['),
        ensures
            old(self).wf('{') ==> final(self).wf('{'),
            old(self).wf('[') ==> final(self).wf('['),
            final(self).members() == old(self).members().push(value@),
    {
        let ghost before = self.items@;
        let ghost start = self.text@;
        if !self.empty {
            proof {
                reveal_strlit(",");
            }
            self.text.append(",");
        }
        self.text.append(value);
        self.empty = false;
        self.items = Ghost(before.push(value@));
        proof {
            let items = before.push(value@);
            assert(items.drop_last() =~= before);
            if before.len() == 0 {
                assert(joined(items) == value@);
                assert(self.text@ =~= start + value@);
                assert(start =~= start.subrange(0, 1));
            } else {
                assert(joined(items) == joined(before) + seq![','] + value@);
                assert(self.text@ =~= start + seq![','] + value@);
            }
            assert(self.text@[0] == start[0]);
            assert(self.text@ =~= seq![self.text@[0]] + joined(items));
        }
    }

    /// Appends the member `"key":value`, the value already written as JSON text.
    pub fn member(&mut self, key: &str, value: &str)
        requires
            old(self).wf('{'),
        ensures
            final(self).wf('{'),
            final(self).members() == old(self).members().push(member(key@, value@)),
    {
        let mut m = quote(key);
        proof {
            reveal_strlit(":");
        }
        m.append(":");
        m.append(value);
        assert(m@ =~= member(key@, value@));
        self.element(m.as_str());
    }

    /// Appends the member for an optional string value.
    pub fn opt_str(&mut self, key: &str, v: &Option<String>)
        requires
            old(self).wf('{'),
        ensures
            final(self).wf('{'),
            final(self).members() == old(self).members() + opt_str_member(key@, *v),
    {
        match v {
            Some(s) => {
                let q = quote(s.as_str());
                self.member(key, q.as_str());
            },
            None => {
                assert(old(self).members() + opt_str_member(key@, *v) =~= old(self).members());
            },
        }
    }

    /// Appends the member for an optional number.
    pub fn opt_num(&mut self, key: &str, v: Option<u64>)
        requires
            old(self).wf('{'),
        ensures
            final(self).wf('{'),
            final(self).members() == old(self).members() + opt_num_member(key@, v),
    {
        match v {
            Some(n) => {
                let d = decimal_text(n);
                self.member(key, d.as_str());
            },
            None => {
                assert(old(self).members() + opt_num_member(key@, v) =~= old(self).members());
            },
        }
    }

    /// Closes the object and hands back its text.
    pub fn finish_object(self) -> (r: String)
        requires
            self.wf('{'),
        ensures
            r@ == object(self.members()),
    {
        let mut text = self.text;
        proof {
            reveal_strlit("}");
        }
        text.append("}");
        text
    }

    /// Closes the array and hands back its text.
    pub fn finish_array(self) -> (r: String)
        requires
            self.wf('['),
        ensures
            r@ == array(self.members()),
    {
        let mut text = self.text;
        proof {
            reveal_strlit("]");
        }
        text.append("]");
        text
    }
}

} // verus!
