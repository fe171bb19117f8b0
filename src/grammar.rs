use vstd::prelude::*;

verus! {

/// One slot of the syllable template, holding the category symbols it may draw from.
#[derive(Clone, Debug)]
pub enum Tactic {
    /// Half of the time the slot yields nothing; otherwise it behaves as `One`.
    Maybe(Vec<char>),
    /// One category is drawn uniformly from the list every time.
    One(Vec<char>),
}

/// A phonotactic grammar and the settings of one generation run.
///
/// `phonemes` maps a category symbol to its phoneme strings; in a well-formed
/// grammar (`wf`) each symbol has one entry. Lookups read the first entry of a
/// symbol, so they are defined on any list.
#[derive(Clone, Debug)]
pub struct Config {
    pub phonotactics: Vec<Tactic>,
    pub phonemes: Vec<(char, Vec<String>)>,
    pub max_syllables: u8,
    pub word_quantity: u16,
    pub filters: Vec<String>,
    pub separate_syllables: bool,
}

/// The category symbols a slot draws from.
pub open spec fn tactic_categories(t: Tactic) -> Seq<char> {
    match t {
        Tactic::Maybe(cs) => cs@,
        Tactic::One(cs) => cs@,
    }
}

/// No symbol has two entries.
pub open spec fn keys_unique(ph: Seq<(char, Vec<String>)>) -> bool {
    forall|i: int, j: int| 0 <= i < j < ph.len() ==> #[trigger] ph[i].0 != #[trigger] ph[j].0
}

/// `i` is the first entry of `ph` whose symbol is `c`.
pub open spec fn is_first_entry(ph: Seq<(char, Vec<String>)>, c: char, i: int) -> bool {
    &&& 0 <= i < ph.len()
    &&& ph[i].0 == c
    &&& forall|j: int| 0 <= j < i ==> ph[j].0 != c
}

/// The phonemes of category `c`, as character sequences; empty where `c` has no entry.
pub open spec fn category_phonemes(ph: Seq<(char, Vec<String>)>, c: char) -> Seq<Seq<char>> {
    if exists|i: int| is_first_entry(ph, c, i) {
        let i = choose|i: int| is_first_entry(ph, c, i);
        ph[i].1@.map_values(|s: String| s@)
    } else {
        Seq::empty()
    }
}

/// The first entry of a symbol is unique, so `category_phonemes` reads that entry.
pub proof fn lemma_first_entry(ph: Seq<(char, Vec<String>)>, c: char, i: int)
    requires
        is_first_entry(ph, c, i),
    ensures
        category_phonemes(ph, c) == ph[i].1@.map_values(|s: String| s@),
{
    let k = choose|k: int| is_first_entry(ph, c, k);
    assert(is_first_entry(ph, c, k));
    if k < i {
        assert(ph[k].0 != c);
    } else if k > i {
        assert(ph[i].0 != c);
    }
}

/// The syllable bound actually applied: a bound of zero counts as one.
pub open spec fn effective_max(max_syllables: u8) -> nat {
    if max_syllables == 0 { 1 } else { max_syllables as nat }
}

/// Each character as a one-character phoneme.
pub open spec fn letters(cs: Seq<char>) -> Seq<Seq<char>> {
    cs.map_values(|c: char| seq![c])
}

/// The built-in grammar: optional consonant, vowel, optional nasal; at most
/// three syllables, a hundred words, no filters, no syllable marker.
pub open spec fn is_default_config(c: Config) -> bool {
    &&& c.phonotactics@.len() == 3
    &&& c.phonotactics@[0] is Maybe && tactic_categories(c.phonotactics@[0]) == seq!['C']
    &&& c.phonotactics@[1] is One && tactic_categories(c.phonotactics@[1]) == seq!['V']
    &&& c.phonotactics@[2] is Maybe && tactic_categories(c.phonotactics@[2]) == seq!['N']
    &&& c.phonemes@.len() == 3
    &&& c.phonemes@[0].0 == 'C'
    &&& c.phonemes@[0].1@.map_values(|s: String| s@) == letters(seq!['m', 'n', 'p', 't', 'k', 's', 'w', 'l', 'j'])
    &&& c.phonemes@[1].0 == 'V'
    &&& c.phonemes@[1].1@.map_values(|s: String| s@) == letters(seq!['a', 'e', 'i', 'o', 'u'])
    &&& c.phonemes@[2].0 == 'N'
    &&& c.phonemes@[2].1@.map_values(|s: String| s@) == letters(seq!['m', 'n'])
    &&& c.max_syllables == 3
    &&& c.word_quantity == 100
    &&& c.filters@.len() == 0
    &&& !c.separate_syllables
}

/// Owned copies of `items`, in order.
fn owned_all(items: &Vec<&str>) -> (r: Vec<String>)
    ensures
        r@.map_values(|s: String| s@) == items@.map_values(|s: &str| s@),
{
    let mut r: Vec<String> = Vec::new();
    let mut i: usize = 0;
    while i < items.len()
        invariant
            0 <= i <= items@.len(),
            r@.len() == i,
            forall|j: int| 0 <= j < i ==> #[trigger] r@[j]@ == items@[j]@,
        decreases items@.len() - i,
    {
        r.push(String::from_str(items[i]));
        i += 1;
    }
    assert(r@.map_values(|s: String| s@) =~= items@.map_values(|s: &str| s@));
    r
}

impl Config {
    /// The phoneme table maps each symbol once.
    pub open spec fn wf(&self) -> bool {
        keys_unique(self.phonemes@)
    }

    /// A grammar from all of its parts.
    pub fn build(
        phonotactics: Vec<Tactic>,
        phonemes: Vec<(char, Vec<String>)>,
        max_syllables: u8,
        word_quantity: u16,
        filters: Vec<String>,
        separate_syllables: bool,
    ) -> (r: Self)
        requires
            keys_unique(phonemes@),
        ensures
            r.wf(),
            r.phonotactics@ == phonotactics@,
            r.phonemes@ == phonemes@,
            r.max_syllables == max_syllables,
            r.word_quantity == word_quantity,
            r.filters@ == filters@,
            r.separate_syllables == separate_syllables,
    {
        Config { phonotactics, phonemes, max_syllables, word_quantity, filters, separate_syllables }
    }
    /// The built-in grammar, used where no configuration can be had.
    pub fn from_default() -> (r: Self)
        ensures
            is_default_config(r),
            r.wf(),
    {
        let consonants = owned_all(&vec!["m", "n", "p", "t", "k", "s", "w", "l", "j"]);
        let vowels = owned_all(&vec!["a", "e", "i", "o", "u"]);
        let nasals = owned_all(&vec!["m", "n"]);
        proof {
            reveal_strlit("m");
            assert("m"@ =~= seq!['m']);
            reveal_strlit("n");
            assert("n"@ =~= seq!['n']);
            reveal_strlit("p");
            assert("p"@ =~= seq!['p']);
            reveal_strlit("t");
            assert("t"@ =~= seq!['t']);
            reveal_strlit("k");
            assert("k"@ =~= seq!['k']);
            reveal_strlit("s");
            assert("s"@ =~= seq!['s']);
            reveal_strlit("w");
            assert("w"@ =~= seq!['w']);
            reveal_strlit("l");
            assert("l"@ =~= seq!['l']);
            reveal_strlit("j");
            assert("j"@ =~= seq!['j']);
            reveal_strlit("a");
            assert("a"@ =~= seq!['a']);
            reveal_strlit("e");
            assert("e"@ =~= seq!['e']);
            reveal_strlit("i");
            assert("i"@ =~= seq!['i']);
            reveal_strlit("o");
            assert("o"@ =~= seq!['o']);
            reveal_strlit("u");
            assert("u"@ =~= seq!['u']);
            assert(consonants@.map_values(|s: String| s@) =~= letters(seq!['m', 'n', 'p', 't', 'k', 's', 'w', 'l', 'j']));
            assert(vowels@.map_values(|s: String| s@) =~= letters(seq!['a', 'e', 'i', 'o', 'u']));
            assert(nasals@.map_values(|s: String| s@) =~= letters(seq!['m', 'n']));
        }
        let phonemes = vec![('C', consonants), ('V', vowels), ('N', nasals)];
        let phonotactics = vec![Tactic::Maybe(vec!['C']), Tactic::One(vec!['V']), Tactic::Maybe(vec!['N'])];
        let r = Config {
            phonemes,
            phonotactics,
            filters: Vec::new(),
            max_syllables: 3,
            separate_syllables: false,
            word_quantity: 100,
        };
        assert(tactic_categories(r.phonotactics@[0]) == seq!['C']);
        assert(tactic_categories(r.phonotactics@[1]) == seq!['V']);
        assert(tactic_categories(r.phonotactics@[2]) == seq!['N']);
        r
    }
}

} // verus!
