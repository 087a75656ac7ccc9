use vstd::prelude::*;
use crate::text::push_char;

verus! {

/// Why one reading could not be taken or recorded.
#[derive(Clone, Copy, Debug, PartialEq, Eq, Structural)]
pub enum PollError {
    /// No answer, or an answer whose status is not 2xx.
    NetworkError,
    /// The body is no JSON document, or holds no number at the asset's path.
    ParseError,
    /// The log could not be opened or written.
    FileError,
}

/// How one key is written inside a JSON pointer: `~` as `~0`, `/` as `~1`.
pub open spec fn escaped_char(c: char) -> Seq<char> {
    if c == '~' {
        seq!['~', '0']
    } else if c == '/' {
        seq!['~', '1']
    } else {
        seq![c]
    }
}

/// A key with each character escaped for a JSON pointer.
pub open spec fn escaped(key: Seq<char>) -> Seq<char>
    decreases key.len(),
{
    if key.len() == 0 {
        Seq::empty()
    } else {
        escaped(key.drop_last()) + escaped_char(key.last())
    }
}

/// The JSON pointer that descends through `path`, one key per step. A key selects an
/// object's member; on an array, a key in decimal selects the element at that index.
pub open spec fn pointer_of(path: Seq<Seq<char>>) -> Seq<char>
    decreases path.len(),
{
    if path.len() == 0 {
        Seq::empty()
    } else {
        pointer_of(path.drop_last()) + seq!['/'] + escaped(path.last())
    }
}

fn push_escaped(out: &mut String, key: &String)
    ensures
        final(out)@ == old(out)@ + escaped(key@),
{
    let k: &str = key.as_str();
    let n: usize = k.unicode_len();
    let mut i: usize = 0;
    while i < n
        invariant
            n == key@.len(),
            k@ == key@,
            0 <= i <= n,
            out@ == old(out)@ + escaped(key@.take(i as int)),
        decreases n - i,
    {
        let c: char = k.get_char(i);
        proof {
            assert(key@.take(i + 1).drop_last() =~= key@.take(i as int));
            reveal_strlit("~0");
            reveal_strlit("~1");
        }
        if c == '~' {
            out.append("~0");
        } else if c == '/' {
            out.append("~1");
        } else {
            push_char(out, c);
        }
        assert(out@ =~= old(out)@ + escaped(key@.take(i + 1)));
        i = i + 1;
    }
    assert(key@.take(n as int) =~= key@);
}

/// The JSON pointer (RFC 6901) that selects `path` through nested objects.
pub fn json_pointer(path: &Vec<String>) -> (r: String)
    ensures
        r@ == pointer_of(path@.map_values(|k: String| k@)),
{
    let ghost keys = path@.map_values(|k: String| k@);
    let mut out = String::new();
    let mut i: usize = 0;
    while i < path.len()
        invariant
            0 <= i <= path@.len(),
            keys == path@.map_values(|k: String| k@),
            out@ == pointer_of(keys.take(i as int)),
        decreases path@.len() - i,
    {
        assert(keys.take(i + 1).drop_last() =~= keys.take(i as int));
        push_char(&mut out, '/');
        push_escaped(&mut out, &path[i]);
        assert(out@ =~= pointer_of(keys.take(i + 1)));
        i = i + 1;
    }
    assert(keys.take(path@.len() as int) =~= keys);
    out
}


#[verifier::external_type_specification]
#[verifier::external_body]
pub struct ExValue(serde_json::Value);

#[verifier::external_type_specification]
#[verifier::external_body]
pub struct ExJsonError(serde_json::Error);

/// The prices that a parsed JSON document holds: for each pointer text under which
/// `Value::pointer` finds a number, the text that `f64`'s `Display` writes of that
/// number as `Number::as_f64` reads it.
pub uninterp spec fn json_numbers(v: serde_json::Value) -> Map<Seq<char>, Seq<char>>;

/// What `serde_json::from_slice` makes of a body: nothing where the bytes are no JSON
/// document, else the numbers of the document they hold.
pub uninterp spec fn parsed_numbers(body: Seq<u8>) -> Option<Map<Seq<char>, Seq<char>>>;

/// Relies on `serde_json::from_slice` into a `Value`, which depends on the bytes alone
/// and refuses bytes that are not UTF-8.
#[verifier::external_body]
fn parse_json(body: &[u8]) -> (r: Result<serde_json::Value, serde_json::Error>)
    ensures
        r is Ok <==> parsed_numbers(body@) is Some,
        r matches Ok(v) ==> parsed_numbers(body@) == Some(json_numbers(v)),
{
    serde_json::from_slice::<serde_json::Value>(body)
}

/// Relies on `Value::pointer`: the value under a pointer text, here kept only where it
/// is a number, and then as the text of `Number::as_f64` in `f64`'s `Display`.
#[verifier::external_body]
fn number_at(v: &serde_json::Value, pointer: &str) -> (r: Option<String>)
    ensures
        r is Some <==> json_numbers(*v).contains_key(pointer@),
        r matches Some(s) ==> s@ == json_numbers(*v)[pointer@],
{
    match v.pointer(pointer) {
        Some(serde_json::Value::Number(n)) => n.as_f64().map(|x| x.to_string()),
        _ => None,
    }
}

/// A price is never negative: its text does not start with a minus sign.
pub open spec fn is_unsigned(price: Seq<char>) -> bool {
    price.len() > 0 && price[0] != '-'
}

/// The price that a JSON body holds under `path`, as decimal text: `ParseError` where
/// the body is no JSON document, holds no number there, or holds a negative one.
pub open spec fn price_in_body(body: Seq<u8>, path: Seq<Seq<char>>) -> Result<Seq<char>, PollError> {
    match parsed_numbers(body) {
        None => Err(PollError::ParseError),
        Some(numbers) => if numbers.contains_key(pointer_of(path)) && is_unsigned(
            numbers[pointer_of(path)],
        ) {
            Ok(numbers[pointer_of(path)])
        } else {
            Err(PollError::ParseError)
        },
    }
}

/// Whether a price text is free of a minus sign.
pub fn price_is_unsigned(price: &String) -> (r: bool)
    ensures
        r == is_unsigned(price@),
{
    let s: &str = price.as_str();
    s.unicode_len() > 0 && s.get_char(0) != '-'
}

/// Reads the number under `path` in a JSON body: `ParseError` where the body is no
/// JSON document, holds no number there, or holds a negative one.
pub fn price_in(body: &[u8], path: &Vec<String>) -> (r: Result<String, PollError>)
    ensures
        r matches Ok(p) ==> price_in_body(body@, path@.map_values(|k: String| k@)) == Ok::<Seq<char>, PollError>(p@),
        r matches Ok(p) ==> p@.len() > 0 && p@[0] != '-',
        r matches Err(e) ==> price_in_body(body@, path@.map_values(|k: String| k@)) == Err::<Seq<char>, PollError>(e),
{
    let pointer = json_pointer(path);
    match parse_json(body) {
        Err(_) => Err(PollError::ParseError),
        Ok(v) => match number_at(&v, pointer.as_str()) {
            Some(p) => if price_is_unsigned(&p) {
                Ok(p)
            } else {
                Err(PollError::ParseError)
            },
            None => Err(PollError::ParseError),
        },
    }
}

} // verus!
