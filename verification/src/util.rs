//! Small helpers: info-hash formatting for tracker requests, bencoded
//! integers, and the result of a lookup by hash.

use vstd::prelude::*;

verus! {

/// `hash` with a `%` before every character at an even position, so that
/// each pair of hex digits reads as a percent-encoded byte.
pub open spec fn format_hash_spec(hash: Seq<char>) -> Seq<char>
    decreases hash.len(),
{
    if hash.len() == 0 {
        hash
    } else {
        let rest = format_hash_spec(hash.drop_last());
        if (hash.len() - 1) % 2 == 0 {
            rest + seq!['%', hash.last()]
        } else {
            rest.push(hash.last())
        }
    }
}

/// Percent-encodes a hex info hash for a tracker request: `abcd` becomes `%ab%cd`.
pub fn format_hash(hash: &str) -> (r: String)
    ensures
        r@ == format_hash_spec(hash@),
{
    let cs = crate::text::chars_of(hash);
    let mut output = String::new();
    let mut idx: usize = 0;
    assert(cs@.take(0) =~= Seq::<char>::empty());
    while idx < cs.len()
        invariant
            idx <= cs.len(),
            cs@ == hash@,
            output@ == format_hash_spec(cs@.take(idx as int)),
        decreases cs.len() - idx,
    {
        let c = cs[idx];
        let ghost before = output@;
        assert(cs@.take(idx + 1).drop_last() =~= cs@.take(idx as int));
        assert(cs@.take(idx + 1).last() == c);
        if idx % 2 == 0 {
            output.push('%');
            output.push(c);
            assert(output@ =~= before + seq!['%', c]);
        } else {
            output.push(c);
        }
        idx = idx + 1;
    }
    assert(cs@.take(cs.len() as int) =~= cs@);
    output
}

/// A bencoded value, with the variants of `lava_torrent`'s `BencodeElem`:
/// UTF-8 strings, other byte strings, integers, lists, and dictionaries with
/// UTF-8 or other keys (held as key-value pairs).
#[derive(Debug)]
pub enum Bencode {
    String(String),
    Bytes(Vec<u8>),
    Integer(i64),
    List(Vec<Bencode>),
    Dictionary(Vec<(String, Bencode)>),
    RawDictionary(Vec<(Vec<u8>, Bencode)>),
}

/// A bencoded value as a `usize` when it is an integer (converted with `as`,
/// so a negative value wraps around); an error otherwise.
pub fn bencode_to_usize(value: &Bencode) -> (r: Result<usize, String>)
    ensures
        match value {
            Bencode::Integer(v) => r == Ok::<usize, String>(*v as usize),
            _ => r is Err && r->Err_0@ == "BencodeElem is not an Integer!"@,
        },
{
    match value {
        Bencode::Integer(v) => Ok(*v as usize),
        _ => Err("BencodeElem is not an Integer!".to_string()),
    }
}

/// The torrents found by an info hash: none found is `None`, like a failed lookup.
pub open spec fn found_or_none<T>(matches: Option<Vec<T>>) -> Option<Vec<T>> {
    match matches {
        Some(v) => if v@.len() == 0 {
            None
        } else {
            Some(v)
        },
        None => None,
    }
}

/// The result of a lookup by info hash, with an empty result made `None`.
pub fn nonempty_matches<T>(matches: Option<Vec<T>>) -> (r: Option<Vec<T>>)
    ensures
        r == found_or_none(matches),
{
    match matches {
        Some(v) => if v.len() == 0 {
            None
        } else {
            Some(v)
        },
        None => None,
    }
}

} // verus!
