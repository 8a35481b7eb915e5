use vstd::prelude::*;

verus! {

/// The options parsed from the command line. Immutable after parsing.
///
/// `words` and `symbols` never change the produced password; they only
/// decide whether a warning line is printed. The three booleans gate the
/// edits of the transform pipeline.
#[derive(Clone, Copy, Debug)]
pub struct Config {
    pub words: u32,
    pub symbols: u32,
    pub caps: bool,
    pub numbers: bool,
    pub exclamation: bool,
}

impl Default for Config {
    /// One word, no symbols, and no edits switched on.
    fn default() -> (c: Config)
        ensures
            c.words == 1,
            c.symbols == 0,
            !c.caps,
            !c.numbers,
            !c.exclamation,
    {
        Config { words: 1, symbols: 0, caps: false, numbers: false, exclamation: false }
    }
}

impl Config {
    /// A warning that more than one word would not be used is owed exactly
    /// when more than one word was asked for.
    pub fn warns_extra_words(&self) -> (r: bool)
        ensures
            r == (self.words > 1),
    {
        self.words > 1
    }

    /// A warning that no special characters will be used is owed exactly
    /// when at least one symbol was asked for.
    pub fn warns_symbols(&self) -> (r: bool)
        ensures
            r == (self.symbols > 0),
    {
        self.symbols > 0
    }
}

} // verus!
