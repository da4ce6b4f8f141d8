//! Property values: the closed set of shapes that a JSON payload is decoded into.
use vstd::prelude::*;
use crate::json::{all_digits, digits_value, parse_usize, uint_value, unique_keys, Json};
use crate::request::{decimal_digits, decimal_text, digit_char, json_uint};

verus! {

/// A floating-point payload, kept as the number text the player sent.
///
/// The text is a JSON number; `str::parse::<f64>` reads it.
#[derive(Debug, Clone, PartialEq)]
pub struct Float(pub String);

/// One entry of the player's playlist.
#[derive(Debug, Clone)]
pub struct PlaylistEntry {
    /// The entry's 0-based position in the playlist.
    pub id: usize,
    pub filename: String,
    /// Empty when the player sent no title.
    pub title: String,
    pub current: bool,
}

#[derive(Debug, Clone)]
pub struct Playlist(pub Vec<PlaylistEntry>);

/// A decoded property value.
///
/// `HashMap` holds the entries of a JSON object, in the order in which they
/// arrived, each key at most once.
#[derive(Debug)]
pub enum MpvDataType {
    Array(Vec<MpvDataType>),
    Bool(bool),
    Double(Float),
    HashMap(Vec<(String, MpvDataType)>),
    Null,
    Playlist(Playlist),
    String(String),
    Usize(usize),
}

/// The value that a JSON number text decodes to: `Usize` for a non-negative
/// integer without fraction or exponent that fits in `usize`, else `Double`.
pub open spec fn number_decodes_to(text: String, d: MpvDataType) -> bool {
    match uint_value(text@) {
        Some(v) if v <= usize::MAX => d == MpvDataType::Usize(v as usize),
        _ => d == MpvDataType::Double(Float(text)),
    }
}

/// `d` is the total decoding of the JSON value `j`: every JSON value has
/// exactly one such `d`.
pub open spec fn decodes_to(j: Json, d: MpvDataType) -> bool
    decreases j,
{
    match j {
        Json::Null => d is Null,
        Json::Bool(b) => d == MpvDataType::Bool(b),
        Json::Number(t) => number_decodes_to(t, d),
        Json::String(s) => d == MpvDataType::String(s),
        Json::Array(items) => match d {
            MpvDataType::Array(out) => items@.len() == out@.len() && forall|i: int|
                0 <= i < items@.len() ==> decodes_to(#[trigger] items@[i], out@[i]),
            _ => false,
        },
        Json::Object(entries) => match d {
            MpvDataType::HashMap(out) => entries@.len() == out@.len() && forall|i: int|
                0 <= i < entries@.len() ==> {
                    &&& (#[trigger] out@[i]).0 == entries@[i].0
                    &&& decodes_to(entries@[i].1, out@[i].1)
                },
            _ => false,
        },
    }
}

/// Decodes any JSON value into a property value; never fails. An object whose
/// keys are unique gives a map whose keys are unique.
pub fn json_to_data(j: &Json) -> (r: MpvDataType)
    ensures
        decodes_to(*j, r),
        (j matches Json::Object(entries) && unique_keys(entries@)) ==> (r matches MpvDataType::HashMap(
            m,
        ) && unique_keys(m@)),
    decreases j,
{
    match j {
        Json::Null => MpvDataType::Null,
        Json::Bool(b) => MpvDataType::Bool(*b),
        Json::Number(t) => match parse_usize(t.as_str()) {
            Some(v) => MpvDataType::Usize(v),
            None => MpvDataType::Double(Float(t.clone())),
        },
        Json::String(s) => MpvDataType::String(s.clone()),
        Json::Array(items) => MpvDataType::Array(json_array_to_vec(items)),
        Json::Object(entries) => MpvDataType::HashMap(json_map_to_hashmap(entries)),
    }
}

/// Decodes each element of a JSON array, in order.
pub fn json_array_to_vec(items: &Vec<Json>) -> (r: Vec<MpvDataType>)
    ensures
        r@.len() == items@.len(),
        forall|i: int| 0 <= i < items@.len() ==> decodes_to(#[trigger] items@[i], r@[i]),
    decreases items,
{
    let mut out: Vec<MpvDataType> = Vec::new();
    let mut i: usize = 0;
    while i < items.len()
        invariant
            i <= items@.len(),
            out@.len() == i,
            forall|k: int| 0 <= k < i ==> decodes_to(#[trigger] items@[k], out@[k]),
        decreases items.len() - i,
    {
        out.push(json_to_data(&items[i]));
        i += 1;
    }
    out
}

/// Decodes each value of a JSON object, keeping its key and the entries' order;
/// unique keys stay unique.
pub fn json_map_to_hashmap(entries: &Vec<(String, Json)>) -> (r: Vec<(String, MpvDataType)>)
    ensures
        r@.len() == entries@.len(),
        unique_keys(entries@) ==> unique_keys(r@),
        forall|i: int|
            0 <= i < entries@.len() ==> {
                &&& (#[trigger] r@[i]).0 == entries@[i].0
                &&& decodes_to(entries@[i].1, r@[i].1)
            },
    decreases entries,
{
    let mut out: Vec<(String, MpvDataType)> = Vec::new();
    let mut i: usize = 0;
    while i < entries.len()
        invariant
            i <= entries@.len(),
            out@.len() == i,
            forall|k: int|
                0 <= k < i ==> {
                    &&& (#[trigger] out@[k]).0 == entries@[k].0
                    &&& decodes_to(entries@[k].1, out@[k].1)
                },
        decreases entries.len() - i,
    {
        let key = entries[i].0.clone();
        out.push((key, json_to_data(&entries[i].1)));
        i += 1;
    }
    out
}

/// The text stored under `key` in the object `j`; empty when it is missing or
/// not a string.
pub open spec fn text_member(j: Json, key: Seq<char>) -> Seq<char> {
    match j.field(key) {
        Some(Json::String(s)) => s@,
        _ => Seq::empty(),
    }
}

/// The flag stored under `key` in the object `j`; false when it is missing or
/// not a boolean.
pub open spec fn flag_member(j: Json, key: Seq<char>) -> bool {
    match j.field(key) {
        Some(Json::Bool(b)) => b,
        _ => false,
    }
}

/// `e` is the playlist entry read from the element `j` at position `id`.
pub open spec fn is_entry_of(j: Json, id: int, e: PlaylistEntry) -> bool {
    &&& e.id == id
    &&& e.filename@ == text_member(j, "filename"@)
    &&& e.title@ == text_member(j, "title"@)
    &&& e.current == flag_member(j, "current"@)
}

/// `j` is the JSON form of the primitive value `d`: null, a boolean, a string,
/// or a number, whose text is the decimal text of an unsigned integer.
pub open spec fn encodes_primitive(d: MpvDataType, j: Json) -> bool {
    match d {
        MpvDataType::Null => j is Null,
        MpvDataType::Bool(b) => j == Json::Bool(b),
        MpvDataType::String(s) => j == Json::String(s),
        MpvDataType::Double(f) => j == Json::Number(f.0),
        MpvDataType::Usize(n) => j is Number && j->Number_0@ == decimal_text(n as int),
        _ => false,
    }
}

/// Encodes a primitive value back into JSON; `None` for an array, a map or a
/// playlist.
pub fn encode_primitive(d: &MpvDataType) -> (r: Option<Json>)
    ensures
        match r {
            Some(j) => encodes_primitive(*d, j),
            None => d is Array || d is HashMap || d is Playlist,
        },
{
    match d {
        MpvDataType::Null => Some(Json::Null),
        MpvDataType::Bool(b) => Some(Json::Bool(*b)),
        MpvDataType::String(s) => Some(Json::String(s.clone())),
        MpvDataType::Double(f) => Some(Json::Number(f.0.clone())),
        MpvDataType::Usize(n) => Some(Json::Number(json_uint(*n))),
        _ => None,
    }
}

proof fn lemma_digit_char(d: nat)
    requires
        d < 10,
    ensures
        '0' <= digit_char(d) <= '9',
        digit_char(d) as nat - '0' as nat == d,
{
}

proof fn lemma_decimal_digits_read_back(n: nat)
    ensures
        all_digits(decimal_digits(n)),
        decimal_digits(n).len() > 0,
        digits_value(decimal_digits(n)) == n,
    decreases n,
{
    lemma_digit_char(n % 10);
    if n >= 10 {
        lemma_decimal_digits_read_back(n / 10);
        let s = decimal_digits(n);
        assert(s.drop_last() =~= decimal_digits(n / 10));
        assert(n == (n / 10) * 10 + n % 10) by (nonlinear_arith);
        assert(s.last() == digit_char(n % 10));
        assert(digits_value(s) == digits_value(s.drop_last()) * 10 + (s.last() as nat - '0' as nat) as nat);
        assert(digits_value(s) == (n / 10) * 10 + n % 10);
    } else {
        let s = decimal_digits(n);
        assert(s.drop_last() =~= Seq::<char>::empty());
        assert(digits_value(s.drop_last()) == 0);
        assert(s.last() == digit_char(n));
    }
}

/// Decoding is total, and re-encoding a decoded primitive value and decoding
/// that again gives the same value back.
pub proof fn lemma_primitive_round_trip(j: Json, d: MpvDataType, e: Json)
    requires
        decodes_to(j, d),
        encodes_primitive(d, e),
    ensures
        decodes_to(e, d),
{
    if let MpvDataType::Usize(n) = d {
        lemma_decimal_digits_read_back(n as nat);
        assert(decimal_text(n as int) == decimal_digits(n as nat));
    }
}

/// Re-encoding the primitive values of a decoded map and decoding that object
/// again gives the same map back.
pub proof fn lemma_primitive_map_round_trip(
    j: Json,
    m: Vec<(String, MpvDataType)>,
    e: Vec<(String, Json)>,
)
    requires
        decodes_to(j, MpvDataType::HashMap(m)),
        e@.len() == m@.len(),
        forall|i: int|
            0 <= i < m@.len() ==> (#[trigger] e@[i]).0 == m@[i].0 && encodes_primitive(
                m@[i].1,
                e@[i].1,
            ),
    ensures
        decodes_to(Json::Object(e), MpvDataType::HashMap(m)),
{
    let entries = j->Object_0;
    assert forall|i: int| 0 <= i < e@.len() implies {
        &&& (#[trigger] m@[i]).0 == e@[i].0
        &&& decodes_to(e@[i].1, m@[i].1)
    } by {
        lemma_primitive_round_trip(entries@[i].1, m@[i].1, e@[i].1);
    }
}

/// `p` is the playlist read from the JSON array elements `items`.
pub open spec fn is_playlist_of(items: Seq<Json>, p: Seq<PlaylistEntry>) -> bool {
    &&& p.len() == items.len()
    &&& forall|i: int| 0 <= i < items.len() ==> is_entry_of(items[i], i, #[trigger] p[i])
}

fn text_of_member(j: &Json, key: &str) -> (r: String)
    ensures
        r@ == text_member(*j, key@),
{
    match j.get(key) {
        Some(Json::String(s)) => s.clone(),
        _ => String::new(),
    }
}

fn flag_of_member(j: &Json, key: &str) -> (r: bool)
    ensures
        r == flag_member(*j, key@),
{
    match j.get(key) {
        Some(Json::Bool(b)) => *b,
        _ => false,
    }
}

/// Reads a playlist from the elements of a JSON array. Each element gives one
/// entry, at its own position; a missing or mistyped member takes its default.
pub fn json_array_to_playlist(items: &Vec<Json>) -> (r: Vec<PlaylistEntry>)
    ensures
        is_playlist_of(items@, r@),
{
    let mut out: Vec<PlaylistEntry> = Vec::new();
    let mut i: usize = 0;
    while i < items.len()
        invariant
            i <= items@.len(),
            out@.len() == i,
            forall|k: int| 0 <= k < i ==> is_entry_of(items@[k], k, #[trigger] out@[k]),
        decreases items.len() - i,
    {
        let item = &items[i];
        let entry = PlaylistEntry {
            id: i,
            filename: text_of_member(item, "filename"),
            title: text_of_member(item, "title"),
            current: flag_of_member(item, "current"),
        };
        out.push(entry);
        i += 1;
    }
    out
}

} // verus!
