//! Text primitives: string comparison and HTML escaping.
//!
//! Escaping uses exactly the byte-wise mapping `>` to `&gt;`, `<` to
//! `&lt;`, `&` to `&amp;`, `'` to `&#39;` and `"` to `&quot;`; every
//! other character is left untouched.

use vstd::prelude::*;
use vstd::string::StrSliceExecFns;
use vstd::string::StringSliceAdditionalSpecFns;
use vstd::utf8::encode_utf8;

verus! {

/// Whether two string slices hold the same characters.
pub fn str_eq(a: &str, b: &str) -> (r: bool)
    ensures
        r == (a@ == b@),
{
    broadcast use vstd::utf8::encode_utf8_decode_utf8;

    let ab = a.as_bytes();
    let bb = b.as_bytes();
    if ab.len() != bb.len() {
        return false;
    }
    let n = ab.len();
    let mut i: usize = 0;
    while i < n
        invariant
            n == ab@.len() == bb@.len(),
            i <= n,
            ab@ == a.spec_bytes(),
            bb@ == b.spec_bytes(),
            forall|j: int| 0 <= j < i ==> ab@[j] == bb@[j],
        decreases n - i,
    {
        if ab[i] != bb[i] {
            return false;
        }
        i = i + 1;
    }
    proof {
        assert(a.spec_bytes() =~= b.spec_bytes());
        assert(encode_utf8(a@) == encode_utf8(b@));
        vstd::utf8::encode_utf8_decode_utf8(a@);
        vstd::utf8::encode_utf8_decode_utf8(b@);
        assert(a@ == b@);
    }
    true
}

/// What one character escapes to.
pub open spec fn escape_char(c: char) -> Seq<char> {
    if c == '>' {
        "&gt;"@
    } else if c == '<' {
        "&lt;"@
    } else if c == '&' {
        "&amp;"@
    } else if c == '\'' {
        "&#39;"@
    } else if c == '"' {
        "&quot;"@
    } else {
        seq![c]
    }
}

/// The escaped form of a whole text.
pub open spec fn escape_text(s: Seq<char>) -> Seq<char>
    decreases s.len(),
{
    if s.len() == 0 {
        Seq::empty()
    } else {
        escape_char(s[0]) + escape_text(s.drop_first())
    }
}

/// Escaping a text one character longer appends that character's
/// escaped form.
pub proof fn lemma_escape_text_push(s: Seq<char>, c: char)
    ensures
        escape_text(s.push(c)) == escape_text(s) + escape_char(c),
    decreases s.len(),
{
    if s.len() == 0 {
        assert(s.push(c)[0] == c);
        assert(s.push(c).drop_first() =~= Seq::<char>::empty());
        assert(escape_text(s.push(c)) == escape_char(c) + escape_text(Seq::<char>::empty()));
        assert(escape_char(c) + Seq::<char>::empty() =~= Seq::<char>::empty() + escape_char(c));
        assert(escape_text(s.push(c)) =~= escape_text(s) + escape_char(c));
    } else {
        assert(s.push(c)[0] == s[0]);
        assert(s.push(c).drop_first() =~= s.drop_first().push(c));
        lemma_escape_text_push(s.drop_first(), c);
        assert(escape_text(s.push(c)) == escape_char(s[0]) + (escape_text(s.drop_first())
            + escape_char(c)));
        assert(escape_char(s[0]) + (escape_text(s.drop_first()) + escape_char(c)) =~= (escape_char(
            s[0],
        ) + escape_text(s.drop_first())) + escape_char(c));
        assert(escape_text(s.push(c)) == escape_text(s) + escape_char(c));
    }
}

/// Relies on String::push: appends exactly the one character.
#[verifier::external_body]
pub(crate) fn push_char(s: &mut String, c: char)
    ensures
        final(s)@ == old(s)@ + seq![c],
{
    s.push(c);
}

/// Whether a byte is one of the five the escaping replaces.
pub open spec fn spec_is_escaped_byte(b: u8) -> bool {
    b == 62 || b == 60 || b == 38 || b == 39 || b == 34
}

/// The replacement markup for one escaped byte — exactly the five
/// special bytes get one — or none for a byte that stands for itself.
pub fn escape_byte(byte: u8) -> (r: Option<&'static str>)
    ensures
        match r {
            Some(s) => spec_is_escaped_byte(byte) && escape_char(byte as char) == s@,
            None => !spec_is_escaped_byte(byte) && escape_char(byte as char) == seq![
                byte as char,
            ],
        },
{
    if byte == 62 {
        Some("&gt;")
    } else if byte == 60 {
        Some("&lt;")
    } else if byte == 38 {
        Some("&amp;")
    } else if byte == 39 {
        Some("&#39;")
    } else if byte == 34 {
        Some("&quot;")
    } else {
        None
    }
}

/// The character for the decimal digit `d`.
pub open spec fn spec_digit_char(d: int) -> char {
    ((48 + d) as u8) as char
}

/// The decimal numeral for `n`, without sign or padding.
pub open spec fn spec_dec(n: int) -> Seq<char>
    decreases n,
{
    if n < 10 {
        seq![spec_digit_char(n)]
    } else {
        spec_dec(n / 10) + seq![spec_digit_char(n % 10)]
    }
}

fn digit_char(d: u8) -> (c: char)
    requires
        d < 10,
    ensures
        c == spec_digit_char(d as int),
{
    (48 + d) as char
}

/// The decimal numeral for a byte value.
pub fn u8_to_string(n: u8) -> (r: String)
    ensures
        r@ == spec_dec(n as int),
{
    let mut out = String::new();
    if n >= 100 {
        push_char(&mut out, digit_char(n / 100));
    }
    if n >= 10 {
        push_char(&mut out, digit_char((n / 10) % 10));
    }
    push_char(&mut out, digit_char(n % 10));
    proof {
        let m = n as int;
        if n >= 100 {
            assert(m / 10 / 10 == m / 100);
            assert(m / 100 < 10);
            assert(spec_dec(m / 100) == seq![spec_digit_char(m / 100)]);
            assert(spec_dec(m / 10) == spec_dec(m / 10 / 10) + seq![spec_digit_char((m / 10) % 10)]);
            assert(spec_dec(m) == spec_dec(m / 10) + seq![spec_digit_char(m % 10)]);
        } else if n >= 10 {
            assert(m / 10 < 10);
            assert(spec_dec(m / 10) == seq![spec_digit_char(m / 10)]);
            assert(spec_dec(m) == spec_dec(m / 10) + seq![spec_digit_char(m % 10)]);
            assert(m / 10 == (m / 10) % 10);
        }
        assert(out@ =~= spec_dec(n as int));
    }
    out
}

/// Replaces every escapable character of the string with its markup,
/// in place.
pub fn escape(string: &mut String)
    ensures
        final(string)@ == escape_text(old(string)@),
{
    let mut out = String::new();
    let n = string.as_str().unicode_len();
    let mut i: usize = 0;
    while i < n
        invariant
            n == string@.len(),
            i <= n,
            string@ == old(string)@,
            out@ == escape_text(string@.take(i as int)),
        decreases n - i,
    {
        let c = string.as_str().get_char(i);
        if c == '>' {
            out.append("&gt;");
        } else if c == '<' {
            out.append("&lt;");
        } else if c == '&' {
            out.append("&amp;");
        } else if c == '\'' {
            out.append("&#39;");
        } else if c == '"' {
            out.append("&quot;");
        } else {
            push_char(&mut out, c);
        }
        proof {
            lemma_escape_text_push(string@.take(i as int), string@[i as int]);
            assert(string@.take(i as int).push(string@[i as int]) =~= string@.take(i + 1));
        }
        i = i + 1;
    }
    proof {
        assert(string@.take(n as int) =~= string@);
    }
    *string = out;
}

} // verus!
