use vstd::prelude::*;
use vstd::string::{StrSliceExecFns, StringExecFns};
use crate::record::{Foo, FooView};

verus! {

/// The decimal digit character for `n` (`n < 10`).
pub open spec fn digit_char(n: nat) -> char {
    if n == 0 { '0' }
    else if n == 1 { '1' }
    else if n == 2 { '2' }
    else if n == 3 { '3' }
    else if n == 4 { '4' }
    else if n == 5 { '5' }
    else if n == 6 { '6' }
    else if n == 7 { '7' }
    else if n == 8 { '8' }
    else { '9' }
}

/// The lower-case hexadecimal digit character for `n` (`n < 16`).
pub open spec fn hex_digit(n: nat) -> char {
    if n < 10 { digit_char(n) }
    else if n == 10 { 'a' }
    else if n == 11 { 'b' }
    else if n == 12 { 'c' }
    else if n == 13 { 'd' }
    else if n == 14 { 'e' }
    else { 'f' }
}

/// The decimal form of `n`, most significant digit first, no leading zeros.
pub open spec fn dec_digits(n: nat) -> Seq<char>
    decreases n,
{
    if n < 10 {
        seq![digit_char(n)]
    } else {
        dec_digits(n / 10) + seq![digit_char(n % 10)]
    }
}

/// How one character appears inside a JSON string literal: quote, backslash
/// and control characters are escaped, every other character stands as is.
pub open spec fn escaped_char(c: char) -> Seq<char> {
    if c == '"' { seq!['\\', '"'] }
    else if c == '\\' { seq!['\\', '\\'] }
    else if c == '\n' { seq!['\\', 'n'] }
    else if c == '\r' { seq!['\\', 'r'] }
    else if c == '\t' { seq!['\\', 't'] }
    else if (c as u32) < 32 {
        seq!['\\', 'u', '0', '0', hex_digit(((c as u32) / 16) as nat), hex_digit(
            ((c as u32) % 16) as nat,
        )]
    } else {
        seq![c]
    }
}

/// The body of a JSON string literal holding `s`.
pub open spec fn escaped_string(s: Seq<char>) -> Seq<char>
    decreases s.len(),
{
    if s.len() == 0 {
        Seq::empty()
    } else {
        escaped_string(s.drop_last()) + escaped_char(s.last())
    }
}

/// A JSON string literal holding `s`.
pub open spec fn quoted(s: Seq<char>) -> Seq<char> {
    seq!['"'] + escaped_string(s) + seq!['"']
}

/// The comma-separated JSON string literals for `names`, in order.
pub open spec fn name_list(names: Seq<Seq<char>>) -> Seq<char>
    decreases names.len(),
{
    if names.len() == 0 {
        Seq::empty()
    } else if names.len() == 1 {
        quoted(names[0])
    } else {
        name_list(names.drop_last()) + seq![','] + quoted(names.last())
    }
}

/// The JSON text for a record: an object with the keys `name` and `id`, an
/// absent field written as `null`.
pub open spec fn json_of(v: FooView) -> Seq<char> {
    "{\"name\":"@ + (match v.name {
        None => "null"@,
        Some(ns) => seq!['['] + name_list(ns) + seq![']'],
    }) + ",\"id\":"@ + (match v.id {
        None => "null"@,
        Some(i) => dec_digits(i as nat),
    }) + seq!['}']
}

/// Relies on `String::push`: appends exactly the given character.
#[verifier::external_body]
pub(crate) fn push_char(out: &mut String, c: char)
    ensures
        final(out)@ == old(out)@ + seq![c],
{
    out.push(c);
}

/// The decimal digit character for `n < 10`, as executable code.
fn digit_char_exec(n: u64) -> (r: char)
    requires
        n < 10,
    ensures
        r == digit_char(n as nat),
{
    if n == 0 { '0' }
    else if n == 1 { '1' }
    else if n == 2 { '2' }
    else if n == 3 { '3' }
    else if n == 4 { '4' }
    else if n == 5 { '5' }
    else if n == 6 { '6' }
    else if n == 7 { '7' }
    else if n == 8 { '8' }
    else { '9' }
}

/// The lower-case hexadecimal digit character for `n < 16`, as executable code.
fn hex_digit_exec(n: u32) -> (r: char)
    requires
        n < 16,
    ensures
        r == hex_digit(n as nat),
{
    if n < 10 { digit_char_exec(n as u64) }
    else if n == 10 { 'a' }
    else if n == 11 { 'b' }
    else if n == 12 { 'c' }
    else if n == 13 { 'd' }
    else if n == 14 { 'e' }
    else { 'f' }
}

/// Append the decimal form of `n`.
fn push_digits(out: &mut String, n: u64)
    ensures
        final(out)@ == old(out)@ + dec_digits(n as nat),
    decreases n,
{
    if n >= 10 {
        push_digits(out, n / 10);
        let d = digit_char_exec(n % 10);
        push_char(out, d);
        proof {
            assert((n / 10) as nat == n as nat / 10);
            assert((n % 10) as nat == n as nat % 10);
            assert(final(out)@ =~= old(out)@ + dec_digits(n as nat));
        }
    } else {
        let d = digit_char_exec(n);
        push_char(out, d);
    }
}

/// Append the escaped form of one character.
fn push_escaped_char(out: &mut String, c: char)
    ensures
        final(out)@ == old(out)@ + escaped_char(c),
{
    if c == '"' {
        push_char(out, '\\');
        push_char(out, '"');
    } else if c == '\\' {
        push_char(out, '\\');
        push_char(out, '\\');
    } else if c == '\n' {
        push_char(out, '\\');
        push_char(out, 'n');
    } else if c == '\r' {
        push_char(out, '\\');
        push_char(out, 'r');
    } else if c == '\t' {
        push_char(out, '\\');
        push_char(out, 't');
    } else {
        let u = c as u32;
        if u < 32 {
            push_char(out, '\\');
            push_char(out, 'u');
            push_char(out, '0');
            push_char(out, '0');
            let h = hex_digit_exec(u / 16);
            push_char(out, h);
            let l = hex_digit_exec(u % 16);
            push_char(out, l);
        } else {
            push_char(out, c);
        }
    }
    proof {
        assert(final(out)@ =~= old(out)@ + escaped_char(c));
    }
}

/// Append a JSON string literal holding `s`.
fn push_quoted(out: &mut String, s: &str)
    ensures
        final(out)@ == old(out)@ + quoted(s@),
{
    push_char(out, '"');
    let n = s.unicode_len();
    let mut i: usize = 0;
    while i < n
        invariant
            n == s@.len(),
            i <= n,
            out@ == old(out)@ + seq!['"'] + escaped_string(s@.subrange(0, i as int)),
        decreases n - i,
    {
        let c = s.get_char(i);
        push_escaped_char(out, c);
        proof {
            let pre = s@.subrange(0, i as int);
            let post = s@.subrange(0, i + 1);
            assert(post.drop_last() =~= pre);
            assert(post.last() == s@[i as int]);
            assert(out@ =~= old(out)@ + seq!['"'] + escaped_string(post));
        }
        i += 1;
    }
    push_char(out, '"');
    proof {
        assert(s@.subrange(0, s@.len() as int) =~= s@);
        assert(out@ =~= old(out)@ + quoted(s@));
    }
}

/// Append the comma-separated JSON string literals for `names`.
fn push_name_list(out: &mut String, names: &Vec<String>)
    ensures
        final(out)@ == old(out)@ + name_list(names@.map_values(|s: String| s@)),
{
    let ghost ns = names@.map_values(|s: String| s@);
    let mut i: usize = 0;
    while i < names.len()
        invariant
            ns == names@.map_values(|s: String| s@),
            ns.len() == names@.len(),
            i <= names@.len(),
            out@ == old(out)@ + name_list(ns.subrange(0, i as int)),
        decreases names@.len() - i,
    {
        if i > 0 {
            push_char(out, ',');
        }
        push_quoted(out, names[i].as_str());
        proof {
            let pre = ns.subrange(0, i as int);
            let post = ns.subrange(0, i + 1);
            assert(ns[i as int] == names@[i as int]@);
            assert(post.drop_last() =~= pre);
            assert(post.last() == ns[i as int]);
            if i == 0 {
                assert(name_list(post) == quoted(ns[0]));
            }
            assert(out@ =~= old(out)@ + name_list(post));
        }
        i += 1;
    }
    proof {
        assert(ns.subrange(0, ns.len() as int) =~= ns);
    }
}

/// Encode a record as JSON text, exactly as [`json_of`] says.
pub fn to_json(record: &Foo) -> (r: String)
    ensures
        r@ == json_of(record@),
{
    let mut out = String::new();
    out.append("{\"name\":");
    match &record.name {
        None => out.append("null"),
        Some(names) => {
            push_char(&mut out, '[');
            push_name_list(&mut out, names);
            push_char(&mut out, ']');
        },
    }
    out.append(",\"id\":");
    match record.id {
        None => out.append("null"),
        Some(i) => push_digits(&mut out, i),
    }
    push_char(&mut out, '}');
    proof {
        assert(out@ =~= json_of(record@));
    }
    out
}

} // verus!
