//! Diagnostic text for errors. The library never logs; it renders an error
//! to one line of text only when the caller asks, naming the failing field —
//! quoted name or bare position — or echoing the input that nothing matched,
//! with quotes and backslashes in it escaped.

use vstd::prelude::*;

use crate::error::{BindError, BindErrorV, FieldId, FieldIdV, ParseError, ParseErrorV};

verus! {

/// Relies on String::push: it appends exactly the one given character.
#[verifier::external_body]
fn push_char(s: &mut String, c: char)
    ensures
        final(s)@ == old(s)@.push(c),
{
    s.push(c);
}

/// The character for one decimal digit.
pub open spec fn digit_char(d: int) -> char {
    if d == 0 {
        '0'
    } else if d == 1 {
        '1'
    } else if d == 2 {
        '2'
    } else if d == 3 {
        '3'
    } else if d == 4 {
        '4'
    } else if d == 5 {
        '5'
    } else if d == 6 {
        '6'
    } else if d == 7 {
        '7'
    } else if d == 8 {
        '8'
    } else {
        '9'
    }
}

/// The decimal rendering of a nonnegative number: its digits in order, with
/// no sign and no leading zero except for the number zero itself.
pub open spec fn dec_str(n: int) -> Seq<char>
    decreases n,
{
    if n <= 9 {
        seq![digit_char(n)]
    } else {
        dec_str(n / 10) + seq![digit_char(n % 10)]
    }
}

/// The text with every quote and backslash preceded by a backslash, as the
/// no-match diagnostic quotes the input.
pub open spec fn escape_seq(s: Seq<char>) -> Seq<char>
    decreases s.len(),
{
    if s.len() == 0 {
        Seq::empty()
    } else {
        (if s[0] == '"' || s[0] == '\\' {
            seq!['\\', s[0]]
        } else {
            seq![s[0]]
        }) + escape_seq(s.drop_first())
    }
}

/// How a field is named in diagnostics: a named field in single quotes, a
/// positional field by its bare position.
pub open spec fn field_text(f: FieldIdV) -> Seq<char> {
    match f {
        FieldIdV::Name(n) => seq!['\''] + n + seq!['\''],
        FieldIdV::Index(i) => dec_str(i),
    }
}

/// The one-line diagnostic for a binding failure.
pub open spec fn bind_error_text(e: BindErrorV) -> Seq<char> {
    match e {
        BindErrorV::MissingGroup { index } => "Getting group "@ + dec_str(index + 1) + " failed"@,
        BindErrorV::FieldConversion { field, message } => "Field "@ + field_text(field)
            + " parsing error: "@ + message,
    }
}

/// The one-line diagnostic for a failed parse.
pub open spec fn parse_error_text(e: ParseErrorV) -> Seq<char> {
    match e {
        ParseErrorV::NoMatch { input } => "Regex matching failed for: \""@ + escape_seq(input)
            + "\""@,
        ParseErrorV::Bind(b) => bind_error_text(b),
    }
}

/// Renders one decimal digit.
fn digit_of(d: u128) -> (c: char)
    requires
        d <= 9,
    ensures
        c == digit_char(d as int),
{
    match d {
        0 => '0',
        1 => '1',
        2 => '2',
        3 => '3',
        4 => '4',
        5 => '5',
        6 => '6',
        7 => '7',
        8 => '8',
        _ => '9',
    }
}

/// Renders a nonnegative number in decimal.
fn dec_of(n: u128) -> (s: String)
    ensures
        s@ == dec_str(n as int),
    decreases n,
{
    if n <= 9 {
        let mut s = String::new();
        push_char(&mut s, digit_of(n));
        proof {
            assert(s@ =~= seq![digit_char(n as int)]);
        }
        s
    } else {
        let mut s = dec_of(n / 10);
        push_char(&mut s, digit_of(n % 10));
        proof {
            assert(s@ =~= dec_str(n as int / 10) + seq![digit_char(n as int % 10)]);
        }
        s
    }
}

/// Escapes quotes and backslashes in the text.
fn escape(s: &str) -> (r: String)
    ensures
        r@ == escape_seq(s@),
{
    let n: usize = s.unicode_len();
    let mut out = String::new();
    let mut i: usize = 0;
    proof {
        assert(s@.skip(0) =~= s@);
        assert(out@ + escape_seq(s@) =~= escape_seq(s@));
    }
    while i < n
        invariant
            0 <= i <= n,
            n == s@.len(),
            escape_seq(s@) == out@ + escape_seq(s@.skip(i as int)),
        decreases n - i,
    {
        let ghost rest = s@.skip(i as int);
        let c: char = s.get_char(i);
        assert(rest[0] == c);
        if c == '"' || c == '\\' {
            push_char(&mut out, '\\');
            push_char(&mut out, c);
        } else {
            push_char(&mut out, c);
        }
        proof {
            assert(rest.drop_first() =~= s@.skip(i + 1));
            assert(escape_seq(rest) == (if c == '"' || c == '\\' {
                seq!['\\', c]
            } else {
                seq![c]
            }) + escape_seq(s@.skip(i + 1)));
            assert(escape_seq(s@) =~= out@ + escape_seq(s@.skip(i + 1)));
        }
        i = i + 1;
    }
    proof {
        assert(escape_seq(s@.skip(n as int)) =~= Seq::<char>::empty());
        assert(out@ + escape_seq(s@.skip(n as int)) =~= out@);
    }
    out
}

impl FieldId {
    /// Renders the field's identity as diagnostics name it.
    fn render(&self) -> (r: String)
        ensures
            r@ == field_text(self@),
    {
        match self {
            FieldId::Name(n) => {
                let mut s = String::new();
                push_char(&mut s, '\'');
                s.append(n.as_str());
                push_char(&mut s, '\'');
                proof {
                    assert(s@ =~= seq!['\''] + n@ + seq!['\'']);
                }
                s
            },
            FieldId::Index(i) => dec_of(*i as u128),
        }
    }
}

impl BindError {
    /// The one-line diagnostic for this binding failure.
    pub fn message(&self) -> (r: String)
        ensures
            r@ == bind_error_text(self@),
    {
        match self {
            BindError::MissingGroup { index } => {
                let mut s = String::new();
                s.append("Getting group ");
                let num = dec_of(*index as u128 + 1);
                s.append(num.as_str());
                s.append(" failed");
                s
            },
            BindError::FieldConversion { field, message } => {
                let mut s = String::new();
                s.append("Field ");
                let f = field.render();
                s.append(f.as_str());
                s.append(" parsing error: ");
                s.append(message.as_str());
                s
            },
        }
    }
}

impl ParseError {
    /// The one-line diagnostic for this failed parse.
    pub fn message(&self) -> (r: String)
        ensures
            r@ == parse_error_text(self@),
    {
        match self {
            ParseError::NoMatch { input } => {
                let mut s = String::new();
                s.append("Regex matching failed for: \"");
                let esc = escape(input.as_str());
                s.append(esc.as_str());
                s.append("\"");
                s
            },
            ParseError::Bind(b) => b.message(),
        }
    }
}

} // verus!
