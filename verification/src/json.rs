//! A small JSON document model, readers for it, and the verified pieces of
//! JSON text: string literals with their escaping, and decimal numbers.
//!
//! Tool parameters arrive as JSON and are read through this tree. Numbers
//! the agent never consumes (floats, negatives) are kept as `NumOther`;
//! the protocol only ever reads unsigned integers.

use vstd::prelude::*;

verus! {

/// A JSON value as the agent sees it.
pub enum JVal {
    Null,
    Bool(bool),
    UInt(u64),
    /// A number that is not an unsigned 64-bit integer; its value is never read.
    NumOther,
    Str(String),
    Arr(Vec<JVal>),
    Obj(Vec<(String, JVal)>),
}

/// The decimal digit character for `d` (which must be below 10).
pub open spec fn digit_char(d: u64) -> char {
    (('0' as u8) + (d as u8)) as char
}

/// Decimal text of an unsigned integer.
pub open spec fn spec_u64_chars(n: u64) -> Seq<char>
    decreases n,
{
    if n < 10 {
        seq![digit_char(n)]
    } else {
        spec_u64_chars((n / 10) as u64) + seq![digit_char(n % 10)]
    }
}

/// Decimal text of an unsigned integer, as characters.
pub fn u64_to_chars(n: u64) -> (r: Vec<char>)
    ensures
        r@ == spec_u64_chars(n),
    decreases n,
{
    if n < 10 {
        let mut r: Vec<char> = Vec::new();
        r.push((('0' as u8) + (n as u8)) as char);
        proof {
            assert(r@ =~= seq![digit_char(n)]);
        }
        r
    } else {
        let mut r = u64_to_chars(n / 10);
        r.push((('0' as u8) + ((n % 10) as u8)) as char);
        proof {
            assert(r@ =~= spec_u64_chars((n / 10) as u64) + seq![digit_char(n % 10)]);
        }
        r
    }
}

/// The hexadecimal digit character for `d` (which must be below 16).
pub open spec fn hex_char(d: u32) -> char {
    if d < 10 {
        (('0' as u8) + (d as u8)) as char
    } else {
        (('a' as u8) + ((d - 10) as u8)) as char
    }
}

/// How one character appears inside a JSON string literal.
pub open spec fn escape_char(c: char) -> Seq<char> {
    if c == '"' {
        seq!['\\', '"']
    } else if c == '\\' {
        seq!['\\', '\\']
    } else if c == '\n' {
        seq!['\\', 'n']
    } else if c == '\r' {
        seq!['\\', 'r']
    } else if c == '\t' {
        seq!['\\', 't']
    } else if (c as u32) < 32 {
        seq!['\\', 'u', '0', '0', hex_char((c as u32) / 16), hex_char((c as u32) % 16)]
    } else {
        seq![c]
    }
}

/// A character sequence escaped for use inside a JSON string literal.
pub open spec fn spec_escape(s: Seq<char>) -> Seq<char>
    decreases s.len(),
{
    if s.len() == 0 {
        Seq::empty()
    } else {
        escape_char(s[0]) + spec_escape(s.drop_first())
    }
}

proof fn lemma_spec_escape_push(s: Seq<char>, c: char)
    ensures
        spec_escape(s.push(c)) == spec_escape(s) + escape_char(c),
    decreases s.len(),
{
    if s.len() == 0 {
        assert(s.push(c).drop_first() =~= Seq::<char>::empty());
        assert(s.push(c)[0] == c);
        assert(spec_escape(s.push(c)) == escape_char(c) + spec_escape(Seq::<char>::empty()));
        assert(escape_char(c) + Seq::<char>::empty() =~= escape_char(c));
        assert(spec_escape(s) + escape_char(c) =~= escape_char(c));
        assert(spec_escape(s.push(c)) =~= spec_escape(s) + escape_char(c));
    } else {
        assert(s.push(c).drop_first() =~= s.drop_first().push(c));
        lemma_spec_escape_push(s.drop_first(), c);
        assert(spec_escape(s.push(c)) =~= spec_escape(s) + escape_char(c));
    }
}

/// Appends the JSON escaping of `c` to `out`.
fn push_escaped(out: &mut Vec<char>, c: char)
    ensures
        final(out)@ == old(out)@ + escape_char(c),
{
    let code: u32 = c as u32;
    if c == '"' {
        out.push('\\');
        out.push('"');
        proof { assert(out@ =~= old(out)@ + escape_char(c)); }
    } else if c == '\\' {
        out.push('\\');
        out.push('\\');
        proof { assert(out@ =~= old(out)@ + escape_char(c)); }
    } else if c == '\n' {
        out.push('\\');
        out.push('n');
        proof { assert(out@ =~= old(out)@ + escape_char(c)); }
    } else if c == '\r' {
        out.push('\\');
        out.push('r');
        proof { assert(out@ =~= old(out)@ + escape_char(c)); }
    } else if c == '\t' {
        out.push('\\');
        out.push('t');
        proof { assert(out@ =~= old(out)@ + escape_char(c)); }
    } else if code < 32 {
        out.push('\\');
        out.push('u');
        out.push('0');
        out.push('0');
        let hi: u32 = code / 16;
        let lo: u32 = code % 16;
        out.push(if hi < 10 { (('0' as u8) + (hi as u8)) as char } else { (('a' as u8) + ((hi - 10) as u8)) as char });
        out.push(if lo < 10 { (('0' as u8) + (lo as u8)) as char } else { (('a' as u8) + ((lo - 10) as u8)) as char });
        proof { assert(out@ =~= old(out)@ + escape_char(c)); }
    } else {
        out.push(c);
        proof { assert(out@ =~= old(out)@ + escape_char(c)); }
    }
}

/// Appends the escaping of every character of `s` to `out`.
fn push_escaped_seq(out: &mut Vec<char>, s: &Vec<char>)
    ensures
        final(out)@ == old(out)@ + spec_escape(s@),
{
    let mut i: usize = 0;
    while i < s.len()
        invariant
            i <= s@.len(),
            out@ == old(out)@ + spec_escape(s@.subrange(0, i as int)),
        decreases s@.len() - i,
    {
        proof {
            assert(s@.subrange(0, i as int).push(s@[i as int]) =~= s@.subrange(0, i as int + 1));
            lemma_spec_escape_push(s@.subrange(0, i as int), s@[i as int]);
        }
        push_escaped(out, s[i]);
        i = i + 1;
    }
    proof {
        assert(s@.subrange(0, s@.len() as int) =~= s@);
    }
}

/// A JSON string literal (quotes and escaping) for `s`.
pub open spec fn spec_quoted(s: Seq<char>) -> Seq<char> {
    seq!['"'] + spec_escape(s) + seq!['"']
}

/// Appends the JSON string literal for `s` to `out`.
pub fn push_quoted(out: &mut Vec<char>, s: &Vec<char>)
    ensures
        final(out)@ == old(out)@ + spec_quoted(s@),
{
    out.push('"');
    push_escaped_seq(out, s);
    out.push('"');
    proof {
        assert(out@ =~= old(out)@ + spec_quoted(s@));
    }
}

/// The value of the first member of `fields` whose key is `key`.
pub open spec fn spec_get(fields: Seq<(String, JVal)>, key: Seq<char>) -> Option<JVal>
    decreases fields.len(),
{
    if fields.len() == 0 {
        None
    } else if fields[0].0@ == key {
        Some(fields[0].1)
    } else {
        spec_get(fields.drop_first(), key)
    }
}

/// The member `key` of `v`, when `v` is an object that has it.
pub open spec fn spec_obj_get(v: JVal, key: Seq<char>) -> Option<JVal> {
    match v {
        JVal::Obj(fields) => spec_get(fields@, key),
        _ => None,
    }
}

impl JVal {
    /// The member `key` of this value, when it is an object that has it.
    pub fn get<'a>(&'a self, key: &str) -> (r: Option<&'a JVal>)
        ensures
            match r {
                Some(x) => spec_obj_get(*self, key@) == Some(*x),
                None => spec_obj_get(*self, key@) is None,
            },
    {
        match self {
            JVal::Obj(fields) => {
                proof {
                    assert(fields@.skip(0) =~= fields@);
                    assert(spec_obj_get(*self, key@) == spec_get(fields@, key@));
                }
                let mut i: usize = 0;
                while i < fields.len()
                    invariant
                        i <= fields@.len(),
                        spec_obj_get(*self, key@) == spec_get(fields@, key@),
                        spec_get(fields@, key@) == spec_get(fields@.skip(i as int), key@),
                    decreases fields@.len() - i,
                {
                    proof {
                        assert(fields@.skip(i as int)[0] == fields@[i as int]);
                        assert(fields@.skip(i as int).drop_first() =~= fields@.skip(i as int + 1));
                    }
                    if crate::chars::str_eq(fields[i].0.as_str(), key) {
                        proof {
                            assert(fields@.skip(i as int)[0].0@ == key@);
                            assert(spec_get(fields@.skip(i as int), key@) == Some(
                                fields@.skip(i as int)[0].1,
                            ));
                        }
                        return Some(&fields[i].1);
                    }
                    i = i + 1;
                }
                proof {
                    assert(fields@.skip(fields@.len() as int) =~= Seq::<(String, JVal)>::empty());
                }
                None
            },
            _ => None,
        }
    }

    /// The text of this value, when it is a string.
    pub fn as_str<'a>(&'a self) -> (r: Option<&'a String>)
        ensures
            match r {
                Some(s) => self is Str && *s == self->Str_0,
                None => !(self is Str),
            },
    {
        match self {
            JVal::Str(s) => Some(s),
            _ => None,
        }
    }

    /// The value of this value, when it is a boolean.
    pub fn as_bool(&self) -> (r: Option<bool>)
        ensures
            match r {
                Some(b) => self is Bool && b == self->Bool_0,
                None => !(self is Bool),
            },
    {
        match self {
            JVal::Bool(b) => Some(*b),
            _ => None,
        }
    }

    /// The value of this value, when it is an unsigned integer.
    pub fn as_u64(&self) -> (r: Option<u64>)
        ensures
            match r {
                Some(n) => self is UInt && n == self->UInt_0,
                None => !(self is UInt),
            },
    {
        match self {
            JVal::UInt(n) => Some(*n),
            _ => None,
        }
    }

    /// The elements of this value, when it is an array.
    pub fn as_arr<'a>(&'a self) -> (r: Option<&'a Vec<JVal>>)
        ensures
            match r {
                Some(items) => self is Arr && *items == self->Arr_0,
                None => !(self is Arr),
            },
    {
        match self {
            JVal::Arr(items) => Some(items),
            _ => None,
        }
    }
}

} // verus!
