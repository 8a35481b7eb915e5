//! Drawing one word from the dictionary and producing the final password.

use vstd::prelude::*;
use crate::config::Config;
use crate::dictionary::DictionaryError;
use crate::transform::transform;
use crate::transform::transformed;
use crate::transform::suffix_candidates;
use crate::transform::GeneratedPassword;

verus! {

/// Relies on `rand::random_range` over `0..n`: a uniformly distributed
/// index of the range, which is non-empty since `n >= 1`.
#[verifier::external_body]
fn random_index(n: usize) -> (r: usize)
    requires
        n >= 1,
    ensures
        r < n,
{
    rand::random_range(0..n)
}

/// Relies on `chrono::Local::now` and `chrono::Datelike::year`: the current
/// calendar year of the local clock. Nothing is promised of the value.
#[verifier::external_body]
fn current_year() -> (r: i32) {
    chrono::Datelike::year(&chrono::Local::now())
}

/// Draw one word uniformly from the dictionary and run the transform
/// pipeline on it. Fails exactly when the dictionary is empty; otherwise the
/// password is the transform of some dictionary entry, for some year and
/// some number candidate.
pub fn generate(dictionary: &Vec<String>, cfg: &Config) -> (r: Result<
    GeneratedPassword,
    DictionaryError,
>)
    ensures
        (r is Ok) <==> dictionary@.len() > 0,
        r is Err ==> r->Err_0 == DictionaryError::Empty,
        r is Ok ==> exists|i: int, year: int, pick: int|
            0 <= i < dictionary@.len() && 0 <= pick < 5 && (r->Ok_0).password@ == #[trigger] transformed(
                dictionary@[i]@,
                *cfg,
                year,
                pick,
            ) && ((r->Ok_0).number is Some <==> cfg.numbers) && (cfg.numbers
            ==> (r->Ok_0).number->0@ == suffix_candidates(year)[pick]),
{
    if dictionary.len() == 0 {
        return Err(DictionaryError::Empty);
    }
    let index = random_index(dictionary.len());
    let word = &dictionary[index];
    let year = current_year();
    let pick = if cfg.numbers {
        random_index(5)
    } else {
        0
    };
    let outcome = transform(word.as_str(), cfg, year, pick);
    proof {
        assert(0 <= index < dictionary@.len() && 0 <= pick < 5 && outcome.password@ == transformed(
            dictionary@[index as int]@,
            *cfg,
            year as int,
            pick as int,
        ) && ((outcome.number is Some) <==> cfg.numbers) && (cfg.numbers ==> outcome.number->0@
            == suffix_candidates(year as int)[pick as int]));
    }
    Ok(outcome)
}

} // verus!
