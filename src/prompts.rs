use vstd::prelude::*;

verus! {

/// Relies on `rand::thread_rng` and `rand::Rng::gen_range`: a number drawn
/// from `0..n`, which panics when the range is empty.
#[verifier::external_body]
fn random_below(n: usize) -> (r: usize)
    requires
        n > 0,
    ensures
        r < n,
{
    rand::Rng::gen_range(&mut rand::thread_rng(), 0..n)
}

/// The word at `index` of `words`, if there is one.
pub fn prompt_at(words: &Vec<String>, index: usize) -> (r: Option<String>)
    ensures
        index < words@.len() ==> r is Some && r->0@ == words@[index as int]@,
        index >= words@.len() ==> r is None,
{
    if index < words.len() {
        Some(words[index].clone())
    } else {
        None
    }
}

/// A word drawn at random from `words`; none when the list is empty.
pub fn draw_prompt(words: &Vec<String>) -> (r: Option<String>)
    ensures
        r is None <==> words@.len() == 0,
        r matches Some(w) ==> exists|i: int| 0 <= i < words@.len() && w@ == #[trigger] words@[i]@,
{
    if words.len() == 0 {
        return None;
    }
    let index = random_below(words.len());
    prompt_at(words, index)
}

} // verus!
