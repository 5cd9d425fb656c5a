//! Hint values attached to a notification request, decoded once at the bus
//! boundary into a tagged variant type, and the urgency probe applied to
//! them for observability.

use vstd::prelude::*;

verus! {

broadcast use vstd::string::group_string_axioms;

/// One decoded hint value. Only a handful of payload shapes matter to the
/// daemon; every other incoming shape is decoded to `Unsupported` and
/// ignored thereafter.
#[derive(Debug, Clone)]
pub enum HintValue {
    Byte(u8),
    Integer(i64),
    Text(String),
    Boolean(bool),
    Unsupported,
}

/// The urgency carried by a hint list: the value of the first entry whose
/// key is "urgency" and whose value is a byte. An "urgency" entry of any
/// other shape, and every other key, is ignored.
pub open spec fn spec_urgency(hints: Seq<(String, HintValue)>) -> Option<u8>
    decreases hints.len(),
{
    if hints.len() == 0 {
        None
    } else {
        let rest = spec_urgency(hints.skip(1));
        match hints[0].1 {
            HintValue::Byte(b) => if hints[0].0@ == "urgency"@ {
                Some(b)
            } else {
                rest
            },
            _ => rest,
        }
    }
}

/// Scans the hints for an unsigned-byte "urgency" entry, mismatched shapes
/// and other keys silently ignored.
pub fn urgency_of(hints: &Vec<(String, HintValue)>) -> (urgency: Option<u8>)
    ensures
        urgency == spec_urgency(hints@),
{
    let urgency_key: String = "urgency".to_string();
    let n = hints.len();
    let mut i: usize = 0;
    proof {
        assert(hints@.skip(0) =~= hints@);
    }
    while i < n
        invariant
            n == hints@.len(),
            i <= n,
            urgency_key@ == "urgency"@,
            spec_urgency(hints@) == spec_urgency(hints@.skip(i as int)),
        decreases n - i,
    {
        match &hints[i].1 {
            HintValue::Byte(b) => {
                if hints[i].0 == urgency_key {
                    proof {
                        let s = hints@.skip(i as int);
                        assert(s[0] == hints@[i as int]);
                        assert(spec_urgency(s) == Some(*b));
                    }
                    return Some(*b);
                }
            },
            _ => {},
        }
        proof {
            let s = hints@.skip(i as int);
            assert(s[0] == hints@[i as int]);
            assert(s.skip(1) =~= hints@.skip(i as int + 1));
            assert(spec_urgency(s) == spec_urgency(hints@.skip(i as int + 1)));
        }
        i += 1;
    }
    proof {
        assert(hints@.skip(n as int) =~= Seq::<(String, HintValue)>::empty());
    }
    None
}

} // verus!
