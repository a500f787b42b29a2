use std::collections::HashMap;
use vstd::prelude::*;
use vstd::string::StringExecFns;

verus! {

/// Converts header entries to owned text, pair by pair: the result
/// holds exactly the given names and values, in the given order.
pub fn convert_pairs(input: Vec<(&str, &str)>) -> (r: Vec<(String, String)>)
    ensures
        r@.len() == input@.len(),
        forall|i: int|
            0 <= i < input@.len() ==> (#[trigger] r@[i]).0@ == input@[i].0@ && r@[i].1@
                == input@[i].1@,
{
    let mut r: Vec<(String, String)> = Vec::new();
    for i in 0..input.len()
        invariant
            r@.len() == i,
            forall|j: int|
                0 <= j < i ==> (#[trigger] r@[j]).0@ == input@[j].0@ && r@[j].1@ == input@[j].1@,
    {
        let (k, v) = input[i];
        r.push((String::from_str(k), String::from_str(v)));
    }
    r
}

/// Rebuilds header entries as a map with owned text keys and values,
/// the form a request configuration holds. The entries come as a
/// sequence of pairs rather than a prebuilt map, because iterating a
/// map with caller-chosen keys is beyond what can be reasoned about
/// here; the conversion of each pair is exact (`convert_pairs`). Of
/// the finished map itself nothing further is stated — a hash map
/// keyed by text offers nothing to reason over either.
pub fn convert_map(input: Vec<(&str, &str)>) -> (r: HashMap<String, String>) {
    let mut pairs = convert_pairs(input);
    let mut r: HashMap<String, String> = HashMap::new();
    loop
        decreases pairs.len(),
    {
        match pairs.pop() {
            Some((k, v)) => {
                r.insert(k, v);
            },
            None => {
                break ;
            },
        }
    }
    r
}

} // verus!
