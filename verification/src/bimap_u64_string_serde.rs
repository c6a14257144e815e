//! The textual form of the accepted-deliveries map: a JSON object needs
//! string keys, so every order id is written in decimal and read back.
use crate::bimap::{insert_all, injective, lists, lemma_insert_listing, BiMap};
use crate::decimal::{decimal, format_u64, lemma_parse_decimal, parse_u64, parsed_u64};
use vstd::prelude::*;

verus! {

/// The pairs of a string map, viewed as character sequences.
pub open spec fn text_pairs(r: Seq<(String, String)>) -> Seq<(Seq<char>, Seq<char>)> {
    r.map_values(|p: (String, String)| (p.0@, p.1@))
}

/// Every key of `r` is a valid unsigned integer.
pub open spec fn all_keys_parse(r: Seq<(Seq<char>, Seq<char>)>) -> bool {
    forall|i: int| 0 <= i < r.len() ==> (#[trigger] parsed_u64(r[i].0)) is Some
}

/// The pairs of `r` with their keys read as integers.
pub open spec fn decode_pairs(r: Seq<(Seq<char>, Seq<char>)>) -> Seq<(u64, Seq<char>)> {
    r.map_values(|p: (Seq<char>, Seq<char>)| (parsed_u64(p.0)->0, p.1))
}

/// Writes the map as string pairs, each key in decimal, in the order in
/// which the map holds its bindings.
pub fn serialize(bimap: &BiMap) -> (result: Vec<(String, String)>)
    ensures
        all_keys_parse(text_pairs(result@)),
        forall|i: int|
            0 <= i < result@.len() ==> (#[trigger] result@[i]).0@ == decimal(
                decode_pairs(text_pairs(result@))[i].0 as nat,
            ),
        lists(decode_pairs(text_pairs(result@)), bimap@),
{
    let entries = bimap.entries();
    let ghost s = entries@.map_values(|p: (u64, String)| (p.0, p.1@));
    let mut out: Vec<(String, String)> = Vec::new();
    for i in 0..entries.len()
        invariant
            s == entries@.map_values(|p: (u64, String)| (p.0, p.1@)),
            out@.len() == i,
            forall|j: int| 0 <= j < i ==> (#[trigger] out@[j]).0@ == decimal(s[j].0 as nat) && out@[j].1@ == s[j].1,
    {
        let key = format_u64(entries[i].0);
        out.push((key, entries[i].1.clone()));
    }
    proof {
        let t = text_pairs(out@);
        assert forall|j: int| 0 <= j < t.len() implies (#[trigger] parsed_u64(t[j].0)) is Some by {
            lemma_parse_decimal(s[j].0);
        }
        assert forall|j: int| 0 <= j < t.len() implies decode_pairs(t)[j] == s[j] by {
            lemma_parse_decimal(s[j].0);
        }
        assert(decode_pairs(t) =~= s);
    }
    out
}

/// Reads string pairs back into a map, inserting them in order; the first
/// key that is not a valid unsigned integer is reported as the error.
pub fn deserialize(pairs: Vec<(String, String)>) -> (result: Result<BiMap, String>)
    ensures
        match result {
            Ok(bimap) => {
                &&& all_keys_parse(text_pairs(pairs@))
                &&& bimap@ == insert_all(Map::empty(), decode_pairs(text_pairs(pairs@)))
            },
            Err(key) => exists|i: int|
                0 <= i < pairs@.len() && pairs@[i].0@ == key@ && parsed_u64(key@) is None
                    && forall|j: int| 0 <= j < i ==> (#[trigger] parsed_u64(pairs@[j].0@)) is Some,
        },
{
    let ghost t = text_pairs(pairs@);
    let mut decoded: Vec<(u64, String)> = Vec::new();
    for i in 0..pairs.len()
        invariant
            t == text_pairs(pairs@),
            decoded@.len() == i,
            forall|j: int| 0 <= j < i ==> (#[trigger] parsed_u64(t[j].0)) is Some,
            forall|j: int| 0 <= j < i ==> (#[trigger] decoded@[j]).0 == parsed_u64(t[j].0)->0 && decoded@[j].1@ == t[j].1,
    {
        match parse_u64(pairs[i].0.as_str()) {
            Some(k) => {
                decoded.push((k, pairs[i].1.clone()));
            },
            None => {
                let key = pairs[i].0.clone();
                proof {
                    assert forall|j: int| 0 <= j < i implies (#[trigger] parsed_u64(pairs@[j].0@)) is Some by {
                        assert(t[j].0 == pairs@[j].0@);
                    }
                }
                return Err(key);
            },
        }
    }
    proof {
        assert(decoded@.map_values(|p: (u64, String)| (p.0, p.1@)) =~= decode_pairs(t));
    }
    Ok(BiMap::from_entries(decoded))
}

/// Reading back what [`serialize`] wrote gives the same map: every key
/// parses, and inserting the pairs rebuilds the relation.
pub proof fn lemma_serialize_round_trip(r: Seq<(Seq<char>, Seq<char>)>, m: Map<u64, Seq<char>>)
    requires
        injective(m),
        all_keys_parse(r),
        lists(decode_pairs(r), m),
    ensures
        insert_all(Map::empty(), decode_pairs(r)) == m,
{
    lemma_insert_listing(decode_pairs(r), m);
}

} // verus!
