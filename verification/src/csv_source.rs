//! Turning the rows of a CSV file into JSON messages.
//!
//! Opening the file and reading its rows is left to the caller; what a row
//! becomes, and how the reading position advances, is decided here.
use vstd::prelude::*;
use crate::json::{
    entries_map, json_array_text, json_object_text, json_string_list, json_string_text, array_of_strings_to_vec,
    object_of_strings_to_vec,
};

verus! {

/// An I/O error of the standard library, carried through unread.
#[verifier::external_type_specification]
#[verifier::external_body]
pub struct ExIoError(std::io::Error);

/// An error of the `csv` reader, carried through unread.
#[verifier::external_type_specification]
#[verifier::external_body]
pub struct ExCsvReadError(csv::Error);

/// Where a CSV source reads from and how.
pub struct CsvConfig {
    pub file_path: String,
    pub has_headers: bool,
    /// The field separator; a comma where none is given.
    pub delimiter: Option<char>,
}

/// The separator character a configuration asks for.
pub open spec fn delimiter_char(delimiter: Option<char>) -> char {
    match delimiter {
        Some(c) => c,
        None => ',',
    }
}

/// A given separator is used as it is, and a comma where none is given.
pub proof fn lemma_delimiter_is_the_given_one(c: char)
    ensures
        delimiter_char(Some(c)) == c,
        delimiter_char(None) == ',',
{
}

impl CsvConfig {
    /// The separator as the byte the reader splits on: the low eight bits of
    /// the character (a comma where none is given).
    pub fn delimiter_byte(&self) -> (r: u8)
        ensures
            r as int == (delimiter_char(self.delimiter) as int) % 256,
            self.delimiter matches Some(c) ==> r as u32 == (c as u32) % 256,
            self.delimiter is None ==> r == 44u8,
    {
        let c: char = match self.delimiter {
            Some(c) => c,
            None => ',',
        };
        let code: u32 = c as u32;
        let b: u8 = code as u8;
        assert(b == code % 256) by (bit_vector)
            requires
                b == code as u8,
        ;
        b
    }
}

/// Why a CSV source could not give a message.
pub enum CsvError {
    Io(std::io::Error),
    Csv(csv::Error),
    Json(serde_json::Error),
    EndOfFile,
}

/// The character of the decimal digit `d`.
pub open spec fn decimal_digit(d: nat) -> char {
    seq!['0', '1', '2', '3', '4', '5', '6', '7', '8', '9'][d as int]
}

/// The decimal notation of `n`, most significant digit first, without leading zeros.
pub open spec fn decimal(n: nat) -> Seq<char>
    decreases n,
{
    if n < 10 {
        seq![decimal_digit(n)]
    } else {
        decimal(n / 10).push(decimal_digit(n % 10))
    }
}

/// The text of one decimal digit.
fn digit_text(d: usize) -> (r: &'static str)
    requires
        d < 10,
    ensures
        r@ == seq![decimal_digit(d as nat)],
{
    proof {
        reveal_strlit("0");
        reveal_strlit("1");
        reveal_strlit("2");
        reveal_strlit("3");
        reveal_strlit("4");
        reveal_strlit("5");
        reveal_strlit("6");
        reveal_strlit("7");
        reveal_strlit("8");
        reveal_strlit("9");
    }
    let r = match d {
        0 => "0",
        1 => "1",
        2 => "2",
        3 => "3",
        4 => "4",
        5 => "5",
        6 => "6",
        7 => "7",
        8 => "8",
        _ => "9",
    };
    assert(r@ =~= seq![decimal_digit(d as nat)]);
    r
}

/// The decimal notation of `n`.
pub fn usize_to_decimal(n: usize) -> (r: String)
    ensures
        r@ == decimal(n as nat),
{
    let mut acc = String::from_str(digit_text(n % 10));
    let mut m: usize = n / 10;
    proof {
        if n >= 10 {
            assert(decimal(n as nat) =~= decimal((n / 10) as nat) + seq![decimal_digit((n % 10) as nat)]);
        }
    }
    while m > 0
        invariant
            decimal(n as nat) == (if m == 0 {
                Seq::<char>::empty()
            } else {
                decimal(m as nat)
            }) + acc@,
        decreases m,
    {
        let ghost old_acc = acc@;
        let d = digit_text(m % 10);
        acc = String::from_str(d).concat(acc.as_str());
        proof {
            if m >= 10 {
                assert(decimal(m as nat) =~= decimal((m / 10) as nat) + seq![decimal_digit((m % 10) as nat)]);
            } else {
                assert(decimal(m as nat) =~= seq![decimal_digit((m % 10) as nat)]);
            }
            assert(decimal(n as nat) =~= (if m / 10 == 0 {
                Seq::<char>::empty()
            } else {
                decimal((m / 10) as nat)
            }) + acc@);
        }
        m = m / 10;
    }
    assert(decimal(n as nat) =~= acc@);
    acc
}

/// The key of the `i`-th field of a row: the `i`-th header where there is one,
/// else `col_` followed by `i` in decimal.
pub open spec fn column_key(headers: Seq<Seq<char>>, i: int) -> Seq<char> {
    if 0 <= i < headers.len() {
        headers[i]
    } else {
        "col_"@ + decimal(i as nat)
    }
}

/// The key of the `i`-th field of a row.
pub fn column_key_of(headers: &Vec<String>, i: usize) -> (r: String)
    ensures
        r@ == column_key(headers.deep_view(), i as int),
{
    if i < headers.len() {
        headers[i].clone()
    } else {
        let digits = usize_to_decimal(i);
        String::from_str("col_").concat(digits.as_str())
    }
}

/// The members of the JSON object a row becomes: field `i` under its column key.
pub open spec fn record_entries(headers: Seq<Seq<char>>, fields: Seq<Seq<char>>) -> Seq<(Seq<char>, Seq<char>)> {
    Seq::new(fields.len(), |i: int| (column_key(headers, i), fields[i]))
}

/// Pairs each field of a row with its column key, in field order.
pub fn keyed_fields(headers: &Vec<String>, fields: &Vec<String>) -> (r: Vec<(String, String)>)
    ensures
        r.deep_view() == record_entries(headers.deep_view(), fields.deep_view()),
{
    let mut r: Vec<(String, String)> = Vec::new();
    let mut i: usize = 0;
    while i < fields.len()
        invariant
            i <= fields@.len(),
            r@.len() == i,
            forall|k: int| 0 <= k < i ==> #[trigger] r@[k].0@ == column_key(headers.deep_view(), k)
                && r@[k].1@ == fields@[k]@,
        decreases fields.len() - i,
    {
        let key = column_key_of(headers, i);
        let value = fields[i].clone();
        r.push((key, value));
        i = i + 1;
    }
    assert(r.deep_view() =~= record_entries(headers.deep_view(), fields.deep_view()));
    r
}

/// The JSON encoding of a row: with headers, an object of its keyed fields;
/// without, an array of its fields.
pub open spec fn record_encoding(headers: Option<Seq<Seq<char>>>, fields: Seq<Seq<char>>) -> Seq<u8> {
    match headers {
        Some(h) => vstd::utf8::encode_utf8(json_object_text(entries_map(record_entries(h, fields)))),
        None => vstd::utf8::encode_utf8(json_array_text(fields)),
    }
}

/// Without headers, the message of a row with no fields is `[]`.
pub proof fn lemma_array_message_of_empty_row()
    ensures
        vstd::utf8::decode_utf8(record_encoding(None, Seq::empty())) == seq!['[', ']'],
{
    broadcast use vstd::utf8::encode_utf8_decode_utf8;
    assert(json_array_text(Seq::empty()) =~= seq!['[', ']']);
}

/// Without headers, every field is one element of the message, in order:
/// the message of a row with one more field `x` at the end is the message of
/// the row without it, its closing bracket replaced by a comma (where there
/// were fields before) and `x` as a JSON string, then the bracket again. No
/// field, empty or not, is dropped, merged or moved.
pub proof fn lemma_array_message_grows_by_one_element(fields: Seq<Seq<char>>, x: Seq<char>)
    ensures
        vstd::utf8::decode_utf8(record_encoding(None, fields.push(x))) == vstd::utf8::decode_utf8(
            record_encoding(None, fields),
        ).drop_last() + (if fields.len() == 0 {
            Seq::<char>::empty()
        } else {
            seq![',']
        }) + json_string_text(x) + seq![']'],
{
    broadcast use vstd::utf8::encode_utf8_decode_utf8;
    assert(fields.push(x).drop_last() =~= fields);
    assert(fields.push(x).last() == x);
    let before = json_array_text(fields);
    assert(before.drop_last() =~= seq!['['] + json_string_list(fields));
    if fields.len() == 0 {
        assert(json_string_list(fields) =~= Seq::<char>::empty());
    }
    assert(json_array_text(fields.push(x)) =~= before.drop_last() + (if fields.len() == 0 {
        Seq::<char>::empty()
    } else {
        seq![',']
    }) + json_string_text(x) + seq![']']);
}

/// Keeps encoded bytes, and reports an encoder error as `CsvError::Json`.
pub fn encoding_result(res: Result<Vec<u8>, serde_json::Error>) -> (r: Result<Vec<u8>, CsvError>)
    ensures
        match res {
            Ok(bytes) => r matches Ok(b) && b == bytes,
            Err(e) => r matches Err(CsvError::Json(f)) && f == e,
        },
{
    match res {
        Ok(bytes) => Ok(bytes),
        Err(e) => Err(CsvError::Json(e)),
    }
}

/// Encodes a row as JSON: an object keyed by the headers where there are
/// headers, else an array of the fields. Encoding a row always succeeds.
pub fn record_json(headers: &Option<Vec<String>>, fields: &Vec<String>) -> (r: Result<Vec<u8>, CsvError>)
    ensures
        r matches Ok(b) && b@ == record_encoding(headers.deep_view(), fields.deep_view()),
        headers is None ==> (r matches Ok(b) && b@ == vstd::utf8::encode_utf8(json_array_text(fields.deep_view()))),
        headers matches Some(h) ==> (r matches Ok(b) && b@ == vstd::utf8::encode_utf8(
            json_object_text(entries_map(record_entries(h.deep_view(), fields.deep_view()))),
        )),
{
    match headers {
        Some(h) => {
            let entries = keyed_fields(h, fields);
            encoding_result(object_of_strings_to_vec(&entries))
        },
        None => encoding_result(array_of_strings_to_vec(fields)),
    }
}

/// One step of a CSV source: from cursor `before`, the outcome `read` of
/// reading a row leads to cursor `after` and message `out`. The headers stay;
/// a row read counts one more row and gives its encoding; a failed read leaves
/// the count and is handed on.
pub open spec fn advanced(
    before: CsvCursor,
    read: Result<Vec<String>, CsvError>,
    after: CsvCursor,
    out: Result<Vec<u8>, CsvError>,
) -> bool {
    &&& after.headers == before.headers
    &&& match read {
        Ok(fields) => {
            &&& after.current_row == before.current_row + 1
            &&& out matches Ok(b) && b@ == record_encoding(before.headers.deep_view(), fields.deep_view())
        },
        Err(e) => after.current_row == before.current_row && (out matches Err(f) && f == e),
    }
}

/// How many of the outcomes are rows read.
pub open spec fn rows_read(reads: Seq<Result<Vec<String>, CsvError>>) -> nat
    decreases reads.len(),
{
    if reads.len() == 0 {
        0
    } else {
        rows_read(reads.drop_last()) + if reads.last() is Ok {
            1nat
        } else {
            0nat
        }
    }
}

/// Over any sequence of reads, a CSV source keeps its headers, counts exactly
/// the rows read (failed reads, the end of the file among them, count
/// nothing), and turns the `i`-th row read into the encoding of that row
/// under the headers it started with, in order.
pub proof fn lemma_reads_in_sequence(
    cursors: Seq<CsvCursor>,
    reads: Seq<Result<Vec<String>, CsvError>>,
    outs: Seq<Result<Vec<u8>, CsvError>>,
)
    requires
        cursors.len() == reads.len() + 1,
        outs.len() == reads.len(),
        forall|i: int| 0 <= i < reads.len() ==> #[trigger] advanced(cursors[i], reads[i], cursors[i + 1], outs[i]),
    ensures
        forall|i: int| 0 <= i <= reads.len() ==> {
            &&& #[trigger] cursors[i].headers == cursors[0].headers
            &&& cursors[i].current_row == cursors[0].current_row + rows_read(reads.take(i))
        },
        forall|i: int| 0 <= i < reads.len() && #[trigger] reads[i] is Ok ==> (outs[i] matches Ok(b)
            && b@ == record_encoding(cursors[0].headers.deep_view(), reads[i]->Ok_0.deep_view())),
        forall|i: int| 0 <= i < reads.len() && #[trigger] reads[i] is Err ==> (outs[i] matches Err(f)
            && f == reads[i]->Err_0),
    decreases reads.len(),
{
    if reads.len() > 0 {
        let n = reads.len() - 1;
        lemma_reads_in_sequence(cursors.take(n + 1), reads.take(n), outs.take(n));
        assert forall|i: int| 0 <= i <= reads.len() implies {
            &&& #[trigger] cursors[i].headers == cursors[0].headers
            &&& cursors[i].current_row == cursors[0].current_row + rows_read(reads.take(i))
        } by {
            if i <= n {
                assert(cursors.take(n + 1)[i] == cursors[i]);
                assert(reads.take(n).take(i) =~= reads.take(i));
            } else {
                assert(cursors.take(n + 1)[n] == cursors[n]);
                assert(reads.take(n).take(n) =~= reads.take(n));
                assert(advanced(cursors[n], reads[n], cursors[n + 1], outs[n]));
                assert(reads.take(i).drop_last() =~= reads.take(n));
            }
        }
        assert forall|i: int| 0 <= i < reads.len() && #[trigger] reads[i] is Ok implies (outs[i] matches Ok(b)
            && b@ == record_encoding(cursors[0].headers.deep_view(), reads[i]->Ok_0.deep_view())) by {
            assert(advanced(cursors[i], reads[i], cursors[i + 1], outs[i]));
        }
        assert forall|i: int| 0 <= i < reads.len() && #[trigger] reads[i] is Err implies (outs[i] matches Err(f)
            && f == reads[i]->Err_0) by {
            assert(advanced(cursors[i], reads[i], cursors[i + 1], outs[i]));
        }
    }
}

/// What a CSV source keeps between reads: the header row, if any, and how
/// many rows it has turned into messages.
pub struct CsvCursor {
    pub headers: Option<Vec<String>>,
    pub current_row: u64,
}

impl CsvCursor {
    /// A cursor before the first row.
    pub fn new(headers: Option<Vec<String>>) -> (r: CsvCursor)
        ensures
            r.headers == headers,
            r.current_row == 0,
    {
        CsvCursor { headers, current_row: 0 }
    }

    /// Takes the outcome of reading the next row: a row read becomes its JSON
    /// encoding and counts one more row; a failed read is handed back as it is.
    pub fn advance(&mut self, read: Result<Vec<String>, CsvError>) -> (r: Result<Vec<u8>, CsvError>)
        requires
            read is Ok ==> old(self).current_row < u64::MAX,
        ensures
            advanced(*old(self), read, *final(self), r),
    {
        match read {
            Ok(fields) => {
                self.current_row = self.current_row + 1;
                record_json(&self.headers, &fields)
            },
            Err(e) => Err(e),
        }
    }
}

} // verus!
