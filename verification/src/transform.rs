//! The cosmetic edits applied to the selected word, in their fixed order:
//! capitalize the first character, append a predictable number, append an
//! exclamation mark.

use vstd::prelude::*;
use vstd::string::StrSliceExecFns;
use vstd::string::StringExecFns;
use crate::config::Config;
use crate::decimal::dec_int;
use crate::decimal::decimal_string;

verus! {

/// What `char::to_uppercase` yields for a character: one or more characters,
/// a function of the character alone.
pub uninterp spec fn upper_of(c: char) -> Seq<char>;

/// Relies on `char::to_uppercase`: the uppercase mapping of a character as
/// one or more characters, depending on the character alone.
#[verifier::external_body]
fn uppercase_char(c: char) -> (r: String)
    ensures
        r@ == upper_of(c),
        r@.len() >= 1,
{
    c.to_uppercase().collect()
}

/// A word with its first character replaced by that character's uppercase
/// mapping; the empty word stays empty.
pub open spec fn capitalized(w: Seq<char>) -> Seq<char> {
    if w.len() == 0 {
        w
    } else {
        upper_of(w[0]) + w.skip(1)
    }
}

/// Uppercase the first character of a string, keeping the rest unchanged.
pub fn capitalize_first(s: &str) -> (r: String)
    ensures
        r@ == capitalized(s@),
{
    let n = s.unicode_len();
    if n == 0 {
        String::new()
    } else {
        let first = s.get_char(0);
        let upper = uppercase_char(first);
        let rest = s.substring_char(1, n);
        upper.concat(rest)
    }
}

/// The five predictable number suffixes for a given year: `"1"`, `"123"`,
/// `"12345"`, the year in decimal, and `"1234"`.
pub open spec fn suffix_candidates(year: int) -> Seq<Seq<char>> {
    seq![
        seq!['1'],
        seq!['1', '2', '3'],
        seq!['1', '2', '3', '4', '5'],
        dec_int(year),
        seq!['1', '2', '3', '4'],
    ]
}

/// The number suffix with index `pick` among the candidates for `year`.
pub fn number_suffix(year: i32, pick: usize) -> (r: String)
    requires
        pick < 5,
    ensures
        r@ == suffix_candidates(year as int)[pick as int],
{
    if pick == 3 {
        decimal_string(year)
    } else {
        proof {
            reveal_strlit("1");
            reveal_strlit("123");
            reveal_strlit("12345");
            reveal_strlit("1234");
        }
        let s = match pick {
            0 => "1",
            1 => "123",
            2 => "12345",
            _ => "1234",
        };
        proof {
            if pick == 0 {
                assert(s@ =~= seq!['1']);
            } else if pick == 1 {
                assert(s@ =~= seq!['1', '2', '3']);
            } else if pick == 2 {
                assert(s@ =~= seq!['1', '2', '3', '4', '5']);
            } else {
                assert(s@ =~= seq!['1', '2', '3', '4']);
            }
        }
        String::from_str(s)
    }
}

/// The final password built from the selected word under a configuration,
/// given the year and the index of the number candidate: the word, its first
/// character uppercased when `caps` is set, then the chosen number suffix
/// when `numbers` is set, then `'!'` when `exclamation` is set.
pub open spec fn transformed(w: Seq<char>, cfg: Config, year: int, pick: int) -> Seq<char> {
    let base = if cfg.caps {
        capitalized(w)
    } else {
        w
    };
    let with_number = if cfg.numbers {
        base + suffix_candidates(year)[pick]
    } else {
        base
    };
    if cfg.exclamation {
        with_number + seq!['!']
    } else {
        with_number
    }
}

/// What follows the (possibly capitalized) word: the number suffix when
/// `numbers` is set, then the exclamation mark when `exclamation` is set.
pub open spec fn trailer(cfg: Config, year: int, pick: int) -> Seq<char> {
    (if cfg.numbers {
        suffix_candidates(year)[pick]
    } else {
        Seq::empty()
    }) + (if cfg.exclamation {
        seq!['!']
    } else {
        Seq::empty()
    })
}

/// A produced password, with the number literal that was appended to it,
/// present exactly when the `numbers` flag was set.
pub struct GeneratedPassword {
    pub password: String,
    pub number: Option<String>,
}

/// Apply the transform pipeline to a word. `pick` chooses among the five
/// number candidates; it matters only when `numbers` is set.
pub fn transform(word: &str, cfg: &Config, year: i32, pick: usize) -> (r: GeneratedPassword)
    requires
        pick < 5,
    ensures
        r.password@ == transformed(word@, *cfg, year as int, pick as int),
        (r.number is Some) <==> cfg.numbers,
        cfg.numbers ==> r.number->0@ == suffix_candidates(year as int)[pick as int],
{
    let mut password = if cfg.caps {
        capitalize_first(word)
    } else {
        String::from_str(word)
    };
    let number = if cfg.numbers {
        let suffix = number_suffix(year, pick);
        password.append(suffix.as_str());
        Some(suffix)
    } else {
        None
    };
    if cfg.exclamation {
        password.append("!");
        proof {
            reveal_strlit("!");
            assert("!"@ =~= seq!['!']);
        }
    }
    GeneratedPassword { password, number }
}

/// The password decomposes as the capitalized-or-plain word followed by the
/// trailer: the suffixes never touch the word itself.
pub proof fn lemma_transformed_decomposition(w: Seq<char>, cfg: Config, year: int, pick: int)
    ensures
        transformed(w, cfg, year, pick) == (if cfg.caps {
            capitalized(w)
        } else {
            w
        }) + trailer(cfg, year, pick),
{
    let base = if cfg.caps {
        capitalized(w)
    } else {
        w
    };
    assert(transformed(w, cfg, year, pick) =~= base + trailer(cfg, year, pick));
}

/// With capitalization off, the core of the password, before anything
/// appended, is exactly the selected word.
pub proof fn lemma_core_is_selected_word(w: Seq<char>, cfg: Config, year: int, pick: int)
    requires
        !cfg.caps,
    ensures
        transformed(w, cfg, year, pick) == w + trailer(cfg, year, pick),
        transformed(w, cfg, year, pick).take(w.len() as int) == w,
{
    lemma_transformed_decomposition(w, cfg, year, pick);
    assert(transformed(w, cfg, year, pick).take(w.len() as int) =~= w);
}

/// With capitalization on, the password starts with the uppercase mapping of
/// the word's first character, and every later character of the word is
/// unchanged before the appended trailer.
pub proof fn lemma_caps_first_character(w: Seq<char>, cfg: Config, year: int, pick: int)
    requires
        cfg.caps,
        w.len() > 0,
    ensures
        transformed(w, cfg, year, pick) == upper_of(w[0]) + w.skip(1) + trailer(cfg, year, pick),
{
    lemma_transformed_decomposition(w, cfg, year, pick);
}

/// With the numbers flag set, the password, after removing the trailing
/// exclamation mark if that flag is set too, ends with the chosen number
/// candidate, which is one of the five for the year.
pub proof fn lemma_number_suffix_at_end(w: Seq<char>, cfg: Config, year: int, pick: int)
    requires
        cfg.numbers,
        0 <= pick < 5,
    ensures
        ({
            let full = transformed(w, cfg, year, pick);
            let trimmed = if cfg.exclamation {
                full.drop_last()
            } else {
                full
            };
            let suffix = suffix_candidates(year)[pick];
            &&& trimmed == (if cfg.caps {
                capitalized(w)
            } else {
                w
            }) + suffix
            &&& trimmed.len() >= suffix.len()
            &&& trimmed.skip(trimmed.len() - suffix.len()) == suffix
        }),
{
    let base = if cfg.caps {
        capitalized(w)
    } else {
        w
    };
    let suffix = suffix_candidates(year)[pick];
    let full = transformed(w, cfg, year, pick);
    let trimmed = if cfg.exclamation {
        full.drop_last()
    } else {
        full
    };
    assert(trimmed =~= base + suffix);
    assert(trimmed.skip(trimmed.len() - suffix.len()) =~= suffix);
}

/// With the exclamation flag set, the password's last character is `'!'`,
/// and it stands after any number suffix: everything before it is the
/// password the remaining flags alone would have produced.
pub proof fn lemma_exclamation_last(w: Seq<char>, cfg: Config, year: int, pick: int)
    requires
        cfg.exclamation,
    ensures
        transformed(w, cfg, year, pick).len() > 0,
        transformed(w, cfg, year, pick).last() == '!',
        transformed(w, cfg, year, pick).drop_last() == transformed(
            w,
            (Config { exclamation: false, ..cfg }),
            year,
            pick,
        ),
{
    let quiet = Config { exclamation: false, ..cfg };
    let full = transformed(w, cfg, year, pick);
    assert(full.drop_last() =~= transformed(w, quiet, year, pick));
}

} // verus!
