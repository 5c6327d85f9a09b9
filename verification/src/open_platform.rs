//! API keys of the open platform: how a request for a new key is tidied.

use crate::text::{is_blank, opt_view, text_of, trim_chars, trimmed};
use vstd::prelude::*;
use vstd::string::*;

verus! {

/// The name of a new key: what the user gave without the white space around
/// it, and none if nothing is left of it.
pub open spec fn tidy_name(name: Option<Seq<char>>) -> Option<Seq<char>> {
    match name {
        Some(n) => if is_blank(n) {
            None
        } else {
            Some(trimmed(n))
        },
        None => None,
    }
}

/// The groups of a new key: those that the user gave, each without the white
/// space around it, in order, less those of which nothing is left.
pub open spec fn tidy_ids(ids: Seq<String>) -> Seq<Seq<char>>
    decreases ids.len(),
{
    if ids.len() == 0 {
        seq![]
    } else {
        let before = tidy_ids(ids.drop_last());
        if is_blank(ids.last()@) {
            before
        } else {
            before.push(trimmed(ids.last()@))
        }
    }
}

/// The texts of a sequence of strings.
pub open spec fn texts(strings: Seq<String>) -> Seq<Seq<char>> {
    strings.map_values(|s: String| s@)
}

/// The name of a new key.
pub fn key_name(name: Option<String>) -> (tidy: Option<String>)
    ensures
        opt_view(tidy) == tidy_name(opt_view(name)),
{
    match name {
        Some(n) => {
            let chars = trim_chars(n.as_str());
            if chars.len() == 0 {
                None
            } else {
                Some(text_of(&chars))
            }
        },
        None => None,
    }
}

/// The groups of a new key.
pub fn key_group_ids(group_ids: &Vec<String>) -> (tidy: Vec<String>)
    ensures
        texts(tidy@) == tidy_ids(group_ids@),
{
    let mut tidy: Vec<String> = Vec::new();
    let mut i: usize = 0;
    while i < group_ids.len()
        invariant
            i <= group_ids.len(),
            texts(tidy@) == tidy_ids(group_ids@.take(i as int)),
        decreases group_ids.len() - i,
    {
        let chars = trim_chars(group_ids[i].as_str());
        proof {
            let upto = group_ids@.take(i + 1);
            assert(upto.drop_last() =~= group_ids@.take(i as int));
        }
        if chars.len() > 0 {
            tidy.push(text_of(&chars));
        }
        i += 1;
    }
    assert(group_ids@.take(group_ids.len() as int) =~= group_ids@);
    tidy
}

} // verus!
