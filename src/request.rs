//! Outbound request lines: `{"command":[...]}` followed by a newline.
use vstd::prelude::*;

verus! {

/// A lowercase hexadecimal digit.
pub open spec fn hex_digit(d: nat) -> char {
    if d < 10 {
        digit_char(d)
    } else if d == 10 {
        'a'
    } else if d == 11 {
        'b'
    } else if d == 12 {
        'c'
    } else if d == 13 {
        'd'
    } else if d == 14 {
        'e'
    } else {
        'f'
    }
}

/// How one character stands inside a JSON string: a quote and a backslash get
/// a backslash before them, the control characters with a short escape take
/// it, the other control characters become `\u00` and two hex digits, and
/// every other character stands as it is.
pub open spec fn escaped_char(c: char) -> Seq<char> {
    if c == '"' {
        seq!['\\', '"']
    } else if c == '\\' {
        seq!['\\', '\\']
    } else if c == '\u{8}' {
        seq!['\\', 'b']
    } else if c == '\u{c}' {
        seq!['\\', 'f']
    } else if c == '\n' {
        seq!['\\', 'n']
    } else if c == '\r' {
        seq!['\\', 'r']
    } else if c == '\t' {
        seq!['\\', 't']
    } else if (c as u32) < 0x20 {
        seq!['\\', 'u', '0', '0', hex_digit((c as u32 / 16) as nat), hex_digit((c as u32 % 16) as nat)]
    } else {
        seq![c]
    }
}

/// The characters of `s`, each escaped.
pub open spec fn escaped(s: Seq<char>) -> Seq<char>
    decreases s.len(),
{
    if s.len() == 0 {
        Seq::empty()
    } else {
        escaped(s.drop_last()) + escaped_char(s.last())
    }
}

/// The JSON text of a string: its escaped characters in double quotes.
pub open spec fn json_string_text(s: Seq<char>) -> Seq<char> {
    seq!['"'] + escaped(s) + seq!['"']
}

/// Relies on `serde_json::to_string` on a `str`: the string between double
/// quotes, with each character escaped as its serializer does.
#[verifier::external_body]
fn quote(s: &str) -> (r: String)
    ensures
        r@ == json_string_text(s@),
{
    match serde_json::to_string(s) {
        Ok(t) => t,
        Err(_) => String::new(),
    }
}

pub open spec fn digit_char(d: nat) -> char {
    if d == 0 {
        '0'
    } else if d == 1 {
        '1'
    } else if d == 2 {
        '2'
    } else if d == 3 {
        '3'
    } else if d == 4 {
        '4'
    } else if d == 5 {
        '5'
    } else if d == 6 {
        '6'
    } else if d == 7 {
        '7'
    } else if d == 8 {
        '8'
    } else {
        '9'
    }
}

/// The decimal digits of `n`, without leading zeros.
pub open spec fn decimal_digits(n: nat) -> Seq<char>
    decreases n,
{
    if n < 10 {
        seq![digit_char(n)]
    } else {
        decimal_digits(n / 10).push(digit_char(n % 10))
    }
}

/// The decimal text of `n`, with a minus sign when it is negative.
pub open spec fn decimal_text(n: int) -> Seq<char> {
    if n < 0 {
        seq!['-'] + decimal_digits((-n) as nat)
    } else {
        decimal_digits(n as nat)
    }
}

fn digit_str(d: u128) -> (r: &'static str)
    requires
        d < 10,
    ensures
        r@ == seq![digit_char(d as nat)],
{
    proof {
        reveal_strlit("0");
        reveal_strlit("1");
        reveal_strlit("2");
        reveal_strlit("3");
        reveal_strlit("4");
        reveal_strlit("5");
        reveal_strlit("6");
        reveal_strlit("7");
        reveal_strlit("8");
        reveal_strlit("9");
    }
    if d == 0 {
        "0"
    } else if d == 1 {
        "1"
    } else if d == 2 {
        "2"
    } else if d == 3 {
        "3"
    } else if d == 4 {
        "4"
    } else if d == 5 {
        "5"
    } else if d == 6 {
        "6"
    } else if d == 7 {
        "7"
    } else if d == 8 {
        "8"
    } else {
        "9"
    }
}

fn digits_text(n: u128) -> (r: String)
    ensures
        r@ == decimal_digits(n as nat),
    decreases n,
{
    if n < 10 {
        String::from_str(digit_str(n))
    } else {
        let mut text = digits_text(n / 10);
        text.append(digit_str(n % 10));
        text
    }
}

/// The decimal text of an integer.
pub(crate) fn int_text(n: i128) -> (r: String)
    ensures
        r@ == decimal_text(n as int),
{
    if n < 0 {
        let magnitude: u128 = ((-(n + 1)) as u128) + 1;
        let mut text = String::from_str("-");
        proof {
            reveal_strlit("-");
        }
        text.append(digits_text(magnitude).as_str());
        text
    } else {
        digits_text(n as u128)
    }
}

/// The texts `items`, separated by commas.
pub open spec fn comma_joined(items: Seq<Seq<char>>) -> Seq<char>
    decreases items.len(),
{
    if items.len() == 0 {
        Seq::empty()
    } else if items.len() == 1 {
        items[0]
    } else {
        comma_joined(items.drop_last()) + ","@ + items.last()
    }
}

/// The request line whose command array holds the JSON texts `items`.
pub open spec fn request_line(items: Seq<Seq<char>>) -> Seq<char> {
    "{\"command\":["@ + comma_joined(items) + "]}\n"@
}

pub open spec fn texts(items: Seq<String>) -> Seq<Seq<char>> {
    items.map_values(|s: String| s@)
}

fn build_request(items: &Vec<String>) -> (r: String)
    ensures
        r@ == request_line(texts(items@)),
{
    let mut line = String::from_str("{\"command\":[");
    let mut i: usize = 0;
    while i < items.len()
        invariant
            i <= items@.len(),
            line@ == "{\"command\":["@ + comma_joined(texts(items@).take(i as int)),
        decreases items.len() - i,
    {
        let ghost before = texts(items@).take(i as int);
        let ghost after = texts(items@).take(i + 1);
        assert(after.drop_last() =~= before);
        assert(after.last() == items@[i as int]@);
        if i > 0 {
            line.append(",");
        } else {
            assert(before.len() == 0);
        }
        line.append(items[i].as_str());
        i += 1;
    }
    assert(texts(items@).take(items@.len() as int) =~= texts(items@));
    line.append("]}\n");
    line
}

/// The JSON text of a boolean value.
pub open spec fn bool_text(b: bool) -> Seq<char> {
    if b {
        "true"@
    } else {
        "false"@
    }
}

/// Renders a boolean as a value of a request.
pub fn json_bool(b: bool) -> (r: String)
    ensures
        r@ == bool_text(b),
{
    if b {
        String::from_str("true")
    } else {
        String::from_str("false")
    }
}

/// Renders a string as a value of a request.
pub fn json_string(s: &str) -> (r: String)
    ensures
        r@ == json_string_text(s@),
{
    quote(s)
}

/// Renders an unsigned integer as a value of a request.
pub fn json_uint(n: usize) -> (r: String)
    ensures
        r@ == decimal_text(n as int),
{
    int_text(n as i128)
}

/// The request that runs `command` with the string arguments `args`.
pub fn run_command_request(command: &str, args: &[&str]) -> (r: String)
    ensures
        r@ == request_line(
            seq![json_string_text(command@)] + args@.map_values(|a: &str| json_string_text(a@)),
        ),
{
    let mut items: Vec<String> = Vec::new();
    items.push(quote(command));
    let mut i: usize = 0;
    while i < args.len()
        invariant
            i <= args@.len(),
            texts(items@) =~= seq![json_string_text(command@)] + args@.take(i as int).map_values(
                |a: &str| json_string_text(a@),
            ),
        decreases args.len() - i,
    {
        let ghost prev = items@;
        let q = quote(args[i]);
        items.push(q);
        assert(texts(items@) =~= texts(prev).push(q@));
        assert(args@.take(i + 1).map_values(|a: &str| json_string_text(a@)) =~= args@.take(
            i as int,
        ).map_values(|a: &str| json_string_text(a@)).push(json_string_text(args@[i as int]@)));
        i += 1;
    }
    assert(args@.take(args@.len() as int) =~= args@);
    build_request(&items)
}

/// The request that reads the property `property`.
pub fn get_property_request(property: &str) -> (r: String)
    ensures
        r@ == request_line(seq![json_string_text("get_property"@), json_string_text(property@)]),
{
    let items = vec![quote("get_property"), quote(property)];
    assert(texts(items@) =~= seq![json_string_text("get_property"@), json_string_text(property@)]);
    build_request(&items)
}

/// The request that sets the property `property` to the value whose JSON text
/// is `value`.
pub fn set_property_request(property: &str, value: &str) -> (r: String)
    ensures
        r@ == request_line(
            seq![json_string_text("set_property"@), json_string_text(property@), value@],
        ),
{
    let items = vec![quote("set_property"), quote(property), String::from_str(value)];
    assert(texts(items@) =~= seq![
        json_string_text("set_property"@),
        json_string_text(property@),
        value@,
    ]);
    build_request(&items)
}

/// The request that asks for notices of changes to `property`, tagged with `id`.
pub fn observe_property_request(id: isize, property: &str) -> (r: String)
    ensures
        r@ == request_line(
            seq![json_string_text("observe_property"@), decimal_text(id as int), json_string_text(property@)],
        ),
{
    let items = vec![quote("observe_property"), int_text(id as i128), quote(property)];
    assert(texts(items@) =~= seq![
        json_string_text("observe_property"@),
        decimal_text(id as int),
        json_string_text(property@),
    ]);
    build_request(&items)
}

} // verus!
