//! Kernel command-line parameters that the agent in the guest needs.

use crate::error::{text_result, Error, ErrorView};
use vstd::prelude::*;
use vstd::string::*;

verus! {

/// What [`to_kernel_string`] gives for a key and a value: the key alone when
/// the value is empty, `key=val` otherwise, and an error for an empty key.
pub open spec fn kernel_string(key: Seq<char>, val: Seq<char>) -> Result<Seq<char>, ErrorView> {
    if key.len() == 0 && val.len() == 0 {
        Err(ErrorView::EmptyKeyAndValue)
    } else if key.len() == 0 {
        Err(ErrorView::EmptyKey)
    } else if val.len() == 0 {
        Ok(key)
    } else {
        Ok(key + seq!['='] + val)
    }
}

/// Formats one kernel parameter.
pub fn to_kernel_string(key: String, val: String) -> (res: Result<String, Error>)
    ensures
        text_result(res) == kernel_string(key@, val@),
{
    if key.as_str().is_empty() && val.as_str().is_empty() {
        Err(Error::EmptyKeyAndValue)
    } else if key.as_str().is_empty() {
        Err(Error::EmptyKey)
    } else if val.as_str().is_empty() {
        Ok(key)
    } else {
        proof {
            reveal_strlit("=");
            assert("="@ =~= seq!['=']);
        }
        let mut text = key;
        text.append("=");
        text.append(val.as_str());
        Ok(text)
    }
}

/// The parameters that a list of key and value pairs gives, in the order of
/// the list; a pair that cannot be formatted gives none.
pub open spec fn kernel_params(pairs: Seq<(Seq<char>, Seq<char>)>) -> Seq<Seq<char>>
    decreases pairs.len(),
{
    if pairs.len() == 0 {
        Seq::empty()
    } else {
        let earlier = kernel_params(pairs.drop_last());
        match kernel_string(pairs.last().0, pairs.last().1) {
            Ok(text) => earlier.push(text),
            Err(_) => earlier,
        }
    }
}

/// Formats the agent's kernel parameters for the boot configuration, leaving
/// out each pair that has no key.
pub fn agent_kernel_params(pairs: &Vec<(String, String)>) -> (params: Vec<String>)
    ensures
        params.deep_view() == kernel_params(pairs.deep_view()),
{
    let mut params: Vec<String> = Vec::new();
    let mut i: usize = 0;
    assert(pairs.deep_view().take(0) =~= Seq::empty());
    assert(params.deep_view() =~= Seq::empty());
    while i < pairs.len()
        invariant
            i <= pairs.len(),
            params.deep_view() == kernel_params(pairs.deep_view().take(i as int)),
        decreases pairs.len() - i,
    {
        let ghost before = params.deep_view();
        let key = pairs[i].0.clone();
        let val = pairs[i].1.clone();
        proof {
            let all = pairs.deep_view();
            assert(all.take(i + 1).drop_last() =~= all.take(i as int));
            assert(all.take(i + 1).last() == (pairs[i as int].0@, pairs[i as int].1@));
        }
        match to_kernel_string(key, val) {
            Ok(text) => {
                params.push(text);
                assert(params.deep_view() =~= before.push(text@));
            },
            Err(_) => {},
        }
        i += 1;
    }
    assert(pairs.deep_view().take(i as int) =~= pairs.deep_view());
    params
}

} // verus!
