//! Standardized log lines without imposing a specific subscriber.
//!
//! Output shape: `"<message>" cid=<correlation_id> key1=<value1> ...`
//! Strings are quoted; numbers and booleans are unquoted. Rendering each
//! piece is specified exactly, down to the decimal digits of a number.

use vstd::prelude::*;
use vstd::string::StringExecFns;

verus! {

/// The character for one decimal digit value.
pub open spec fn digit_char(d: nat) -> char {
    if d == 0 {
        '0'
    } else if d == 1 {
        '1'
    } else if d == 2 {
        '2'
    } else if d == 3 {
        '3'
    } else if d == 4 {
        '4'
    } else if d == 5 {
        '5'
    } else if d == 6 {
        '6'
    } else if d == 7 {
        '7'
    } else if d == 8 {
        '8'
    } else {
        '9'
    }
}

/// The decimal digits of `n`, most significant first, with no leading
/// zeros except for `n == 0` itself.
pub open spec fn dec_digits(n: nat) -> Seq<char>
    decreases n,
{
    if n < 10 {
        seq![digit_char(n)]
    } else {
        dec_digits(n / 10).push(digit_char(n % 10))
    }
}

/// The decimal rendering of a signed value: a minus sign and the digits
/// of the magnitude, or just the digits when non-negative.
pub open spec fn dec_int(i: int) -> Seq<char> {
    if i < 0 {
        seq!['-'] + dec_digits((-i) as nat)
    } else {
        dec_digits(i as nat)
    }
}

/// The rendering of a quoted string: the characters between two
/// double-quote marks.
pub open spec fn quoted(s: Seq<char>) -> Seq<char> {
    seq!['"'] + s + seq!['"']
}

/// One decimal digit as a string slice.
fn digit_str(d: u64) -> (s: &'static str)
    requires
        d < 10,
    ensures
        s@ =~= seq![digit_char(d as nat)],
{
    proof {
        reveal_strlit("0");
        reveal_strlit("1");
        reveal_strlit("2");
        reveal_strlit("3");
        reveal_strlit("4");
        reveal_strlit("5");
        reveal_strlit("6");
        reveal_strlit("7");
        reveal_strlit("8");
        reveal_strlit("9");
    }
    match d {
        0 => "0",
        1 => "1",
        2 => "2",
        3 => "3",
        4 => "4",
        5 => "5",
        6 => "6",
        7 => "7",
        8 => "8",
        _ => "9",
    }
}

/// Render an unsigned value in decimal.
pub fn render_u64(n: u64) -> (s: String)
    ensures
        s@ == dec_digits(n as nat),
    decreases n,
{
    if n < 10 {
        digit_str(n).to_owned()
    } else {
        let prefix = render_u64(n / 10);
        prefix.concat(digit_str(n % 10))
    }
}

/// Render a signed value in decimal, with a leading minus sign when
/// negative.
pub fn render_i64(n: i64) -> (s: String)
    ensures
        s@ == dec_int(n as int),
{
    if n >= 0 {
        render_u64(n as u64)
    } else {
        let magnitude: u64 = ((-(n + 1)) as u64) + 1;
        proof {
            reveal_strlit("-");
        }
        let sign: String = "-".to_owned();
        sign.concat(render_u64(magnitude).as_str())
    }
}

/// Structured value rendering: strings are quoted, primitive values are
/// not.
pub trait StructuredValue {
    /// The exact characters `render` produces for this value.
    spec fn render_spec(&self) -> Seq<char>;

    /// Render the value as a string suitable for key=value logging.
    fn render(&self) -> (s: String)
        ensures
            s@ == self.render_spec(),
    ;
}

impl StructuredValue for String {
    open spec fn render_spec(&self) -> Seq<char> {
        quoted(self@)
    }

    fn render(&self) -> (s: String) {
        proof {
            reveal_strlit("\"");
        }
        let mut out: String = "\"".to_owned();
        out.append(self.as_str());
        out.append("\"");
        out
    }
}

impl StructuredValue for &str {
    open spec fn render_spec(&self) -> Seq<char> {
        quoted(self@)
    }

    fn render(&self) -> (s: String) {
        proof {
            reveal_strlit("\"");
        }
        let mut out: String = "\"".to_owned();
        out.append(self);
        out.append("\"");
        out
    }
}

impl StructuredValue for bool {
    open spec fn render_spec(&self) -> Seq<char> {
        if *self {
            seq!['t', 'r', 'u', 'e']
        } else {
            seq!['f', 'a', 'l', 's', 'e']
        }
    }

    fn render(&self) -> (s: String) {
        proof {
            reveal_strlit("true");
            reveal_strlit("false");
        }
        if *self {
            "true".to_owned()
        } else {
            "false".to_owned()
        }
    }
}

impl StructuredValue for u8 {
    open spec fn render_spec(&self) -> Seq<char> {
        dec_digits(*self as nat)
    }

    fn render(&self) -> (s: String) {
        render_u64(*self as u64)
    }
}

impl StructuredValue for u16 {
    open spec fn render_spec(&self) -> Seq<char> {
        dec_digits(*self as nat)
    }

    fn render(&self) -> (s: String) {
        render_u64(*self as u64)
    }
}

impl StructuredValue for u32 {
    open spec fn render_spec(&self) -> Seq<char> {
        dec_digits(*self as nat)
    }

    fn render(&self) -> (s: String) {
        render_u64(*self as u64)
    }
}

impl StructuredValue for u64 {
    open spec fn render_spec(&self) -> Seq<char> {
        dec_digits(*self as nat)
    }

    fn render(&self) -> (s: String) {
        render_u64(*self)
    }
}

impl StructuredValue for usize {
    open spec fn render_spec(&self) -> Seq<char> {
        dec_digits(*self as nat)
    }

    fn render(&self) -> (s: String) {
        render_u64(*self as u64)
    }
}

impl StructuredValue for i8 {
    open spec fn render_spec(&self) -> Seq<char> {
        dec_int(*self as int)
    }

    fn render(&self) -> (s: String) {
        render_i64(*self as i64)
    }
}

impl StructuredValue for i16 {
    open spec fn render_spec(&self) -> Seq<char> {
        dec_int(*self as int)
    }

    fn render(&self) -> (s: String) {
        render_i64(*self as i64)
    }
}

impl StructuredValue for i32 {
    open spec fn render_spec(&self) -> Seq<char> {
        dec_int(*self as int)
    }

    fn render(&self) -> (s: String) {
        render_i64(*self as i64)
    }
}

impl StructuredValue for i64 {
    open spec fn render_spec(&self) -> Seq<char> {
        dec_int(*self as int)
    }

    fn render(&self) -> (s: String) {
        render_i64(*self)
    }
}

impl StructuredValue for isize {
    open spec fn render_spec(&self) -> Seq<char> {
        dec_int(*self as int)
    }

    fn render(&self) -> (s: String) {
        render_i64(*self as i64)
    }
}

/// Produce a key/value pair where the value is rendered with
/// `StructuredValue`.
pub fn kv_render<V: StructuredValue>(k: &str, v: &V) -> (kv: (String, String))
    ensures
        kv.0@ == k@,
        kv.1@ == v.render_spec(),
{
    (k.to_owned(), v.render())
}

/// The rendering of one field: a space, the key, an equals sign, and the
/// already-rendered value.
pub open spec fn field_chars(field: (Seq<char>, Seq<char>)) -> Seq<char> {
    seq![' '] + field.0 + seq!['='] + field.1
}

/// The rendering of a field list, in order.
pub open spec fn fields_chars(fields: Seq<(Seq<char>, Seq<char>)>) -> Seq<char>
    decreases fields.len(),
{
    if fields.len() == 0 {
        Seq::empty()
    } else {
        fields_chars(fields.drop_last()) + field_chars(fields.last())
    }
}

/// The view of a rendered key/value list.
pub open spec fn fields_view(fields: Seq<(String, String)>) -> Seq<(Seq<char>, Seq<char>)> {
    fields.map_values(|f: (String, String)| (f.0@, f.1@))
}

/// The whole log line: the quoted message, then `cid="<cid>"` when a
/// correlation id is given, then each field as ` key=value`.
pub open spec fn line_spec(
    message: Seq<char>,
    cid: Option<Seq<char>>,
    fields: Seq<(Seq<char>, Seq<char>)>,
) -> Seq<char> {
    quoted(message) + (match cid {
        Some(c) => seq![' ', 'c', 'i', 'd', '='] + quoted(c),
        None => Seq::empty(),
    }) + fields_chars(fields)
}

/// Render a log line with the agreed message and key=value structure:
/// the message first, always quoted; the optional correlation id next;
/// then the remaining fields as key=value, in order.
pub fn line(message: &str, cid: Option<&str>, fields: &Vec<(String, String)>) -> (out: String)
    ensures
        out@ == line_spec(
            message@,
            match cid {
                Some(c) => Some(c@),
                None => None,
            },
            fields_view(fields@),
        ),
{
    proof {
        reveal_strlit("\"");
        reveal_strlit(" cid=");
        reveal_strlit(" ");
        reveal_strlit("=");
    }
    let mut out: String = "\"".to_owned();
    out.append(message);
    out.append("\"");
    if let Some(c) = cid {
        out.append(" cid=");
        out.append("\"");
        out.append(c);
        out.append("\"");
    }
    let ghost base = out@;
    let mut i: usize = 0;
    while i < fields.len()
        invariant
            i <= fields@.len(),
            base =~= line_spec(
                message@,
                match cid {
                    Some(c) => Some(c@),
                    None => None,
                },
                Seq::empty(),
            ),
            out@ =~= base + fields_chars(fields_view(fields@).take(i as int)),
        decreases fields@.len() - i,
    {
        out.append(" ");
        out.append(fields[i].0.as_str());
        out.append("=");
        out.append(fields[i].1.as_str());
        i = i + 1;
        proof {
            reveal_strlit(" ");
            reveal_strlit("=");
            let fv = fields_view(fields@);
            assert(fv[i - 1] == (fields@[i - 1].0@, fields@[i - 1].1@));
            assert(fv.take(i as int).drop_last() =~= fv.take(i - 1));
            assert(fv.take(i as int).last() == fv[i - 1]);
            assert(fields_chars(fv.take(i as int)) == fields_chars(fv.take(i - 1)) + field_chars(
                fv[i - 1],
            ));
        }
    }
    proof {
        assert(fields_view(fields@).take(fields@.len() as int) =~= fields_view(fields@));
        assert(out@ =~= line_spec(
            message@,
            match cid {
                Some(c) => Some(c@),
                None => None,
            },
            fields_view(fields@),
        ));
    }
    out
}

} // verus!
