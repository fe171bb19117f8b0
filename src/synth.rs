use crate::grammar::{category_phonemes, tactic_categories, effective_max, is_first_entry, lemma_first_entry, Tactic};
use crate::generate::{passes_filters, rejected};
use crate::random::{choose_from, draw_between, flip_coin};
use vstd::prelude::*;

verus! {

/// `s` is a possible output of drawing from category `c`: one of its phonemes,
/// or nothing where the category is missing or has no phonemes.
pub open spec fn category_yields(ph: Seq<(char, Vec<String>)>, c: char, s: Seq<char>) -> bool {
    let ps = category_phonemes(ph, c);
    (ps.len() == 0 && s == Seq::<char>::empty()) || ps.contains(s)
}

/// `s` is a possible output of drawing one category out of `cs` and then one of its phonemes.
pub open spec fn choice_yields(cs: Seq<char>, ph: Seq<(char, Vec<String>)>, s: Seq<char>) -> bool {
    ||| (cs.len() == 0 && s == Seq::<char>::empty())
    ||| exists|i: int| 0 <= i < cs.len() && category_yields(ph, #[trigger] cs[i], s)
}

/// `s` is a possible output of the slot `t`.
pub open spec fn slot_yields(t: Tactic, ph: Seq<(char, Vec<String>)>, s: Seq<char>) -> bool {
    match t {
        Tactic::Maybe(cs) => s == Seq::<char>::empty() || choice_yields(cs@, ph, s),
        Tactic::One(cs) => choice_yields(cs@, ph, s),
    }
}

/// The syllable made of the slot outputs `parts`, with its trailing marker when `sep` is set.
pub open spec fn syllable_from(parts: Seq<Seq<char>>, sep: bool) -> Seq<char> {
    if sep {
        parts.flatten() + seq!['-']
    } else {
        parts.flatten()
    }
}

/// `s` is a possible syllable: one output per slot, in template order.
pub open spec fn syllable_yields(
    tactics: Seq<Tactic>,
    ph: Seq<(char, Vec<String>)>,
    sep: bool,
    s: Seq<char>,
) -> bool {
    exists|parts: Seq<Seq<char>>|
        {
            &&& parts.len() == tactics.len()
            &&& forall|i: int| 0 <= i < parts.len() ==> slot_yields(tactics[i], ph, #[trigger] parts[i])
            &&& s == #[trigger] syllable_from(parts, sep)
        }
}

/// `w` is a possible word: between one and the syllable bound of possible syllables.
pub open spec fn word_yields(
    tactics: Seq<Tactic>,
    ph: Seq<(char, Vec<String>)>,
    max_syllables: u8,
    sep: bool,
    w: Seq<char>,
) -> bool {
    exists|syls: Seq<Seq<char>>|
        {
            &&& 1 <= syls.len() <= effective_max(max_syllables)
            &&& forall|i: int| 0 <= i < syls.len() ==> syllable_yields(tactics, ph, sep, #[trigger] syls[i])
            &&& w == #[trigger] syls.flatten()
        }
}

/// One phoneme of category `group`, or the empty string where the category is
/// missing or has no phonemes (a lenient degradation, not a failure).
pub fn choose_phoneme_of(group: char, phonemes: &Vec<(char, Vec<String>)>) -> (r: String)
    ensures
        category_yields(phonemes@, group, r@),
{
    let mut i: usize = 0;
    while i < phonemes.len()
        invariant
            0 <= i <= phonemes@.len(),
            forall|j: int| 0 <= j < i ==> phonemes@[j].0 != group,
        decreases phonemes@.len() - i,
    {
        if phonemes[i].0 == group {
            proof {
                assert(is_first_entry(phonemes@, group, i as int));
                lemma_first_entry(phonemes@, group, i as int);
            }
            let list = &phonemes[i].1;
            match choose_from(list.as_slice()) {
                Some(p) => {
                    let r = p.clone();
                    proof {
                        let k = choose|k: int| 0 <= k < list@.len() && list@[k] == *p;
                        assert(category_phonemes(phonemes@, group)[k] == r@);
                    }
                    return r;
                },
                None => {
                    return String::new();
                },
            }
        }
        i += 1;
    }
    String::new()
}

/// One category symbol drawn from `vc`; `None` exactly when `vc` is empty.
pub fn process_one(vc: &Vec<char>) -> (r: Option<char>)
    ensures
        r is None <==> vc@.len() == 0,
        r matches Some(c) ==> vc@.contains(c),
{
    match choose_from(vc.as_slice()) {
        Some(c) => Some(*c),
        None => None,
    }
}

/// The decision of an optional slot once the coin is known: nothing when
/// `skip` is set, otherwise one category symbol drawn from `vc`.
pub fn maybe_choice(skip: bool, vc: &Vec<char>) -> (r: Option<char>)
    ensures
        skip ==> r is None,
        !skip ==> (r is None <==> vc@.len() == 0),
        r matches Some(c) ==> vc@.contains(c),
{
    if skip {
        None
    } else {
        process_one(vc)
    }
}

/// Half of the time nothing, otherwise one category symbol drawn from `vc`.
pub fn process_maybe(vc: &Vec<char>) -> (r: Option<char>)
    ensures
        r matches Some(c) ==> vc@.contains(c),
{
    maybe_choice(flip_coin(), vc)
}

/// The output of one slot: a drawn category's phoneme, or the empty string.
pub fn process_tactic(group: &Tactic, phonemes: &Vec<(char, Vec<String>)>) -> (r: String)
    ensures
        slot_yields(*group, phonemes@, r@),
{
    let key = match group {
        Tactic::One(vc) => process_one(vc),
        Tactic::Maybe(vc) => process_maybe(vc),
    };
    match key {
        Some(c) => {
            let r = choose_phoneme_of(c, phonemes);
            proof {
                let cs = tactic_categories(*group);
                let k = choose|k: int| 0 <= k < cs.len() && cs[k] == c;
                assert(category_yields(phonemes@, cs[k], r@));
            }
            r
        },
        None => {
            let r = String::new();
            proof {
                if let Tactic::One(vc) = group {
                    assert(vc@.len() == 0);
                }
            }
            r
        },
    }
}

/// One syllable: every slot of the template in order, concatenated, followed
/// by a `-` marker when `sep_syllable` is set.
pub fn gen_syllable(tactics: &[Tactic], phonemes: &Vec<(char, Vec<String>)>, sep_syllable: &bool) -> (r: String)
    ensures
        syllable_yields(tactics@, phonemes@, *sep_syllable, r@),
{
    let mut syllable = String::new();
    let ghost mut parts: Seq<Seq<char>> = Seq::empty();
    let mut i: usize = 0;
    while i < tactics.len()
        invariant
            0 <= i <= tactics@.len(),
            parts.len() == i,
            forall|j: int| 0 <= j < i ==> slot_yields(tactics@[j], phonemes@, #[trigger] parts[j]),
            syllable@ == parts.flatten(),
        decreases tactics@.len() - i,
    {
        let c = process_tactic(&tactics[i], phonemes);
        proof {
            parts.lemma_flatten_push(c@);
            parts = parts.push(c@);
        }
        syllable.append(c.as_str());
        i += 1;
    }
    if *sep_syllable {
        syllable.append("-");
        proof {
            reveal_strlit("-");
            assert("-"@ =~= seq!['-']);
        }
    }
    assert(*sep_syllable ==> syllable@ == syllable_from(parts, *sep_syllable));
    assert(!*sep_syllable ==> syllable@ == syllable_from(parts, *sep_syllable));
    syllable
}

/// Exactly `count` syllables, concatenated in the order drawn.
pub fn gen_syllables(
    count: u8,
    tactics: &[Tactic],
    phonemes: &Vec<(char, Vec<String>)>,
    sep_syllable: &bool,
) -> (r: String)
    ensures
        exists|syls: Seq<Seq<char>>|
            {
                &&& syls.len() == count
                &&& forall|i: int| 0 <= i < syls.len() ==> syllable_yields(tactics@, phonemes@, *sep_syllable, #[trigger] syls[i])
                &&& r@ == #[trigger] syls.flatten()
            },
{
    let mut word = String::new();
    let ghost mut syls: Seq<Seq<char>> = Seq::empty();
    let mut n: u8 = 0;
    while n < count
        invariant
            0 <= n <= count,
            syls.len() == n,
            forall|j: int| 0 <= j < n ==> syllable_yields(tactics@, phonemes@, *sep_syllable, #[trigger] syls[j]),
            word@ == syls.flatten(),
        decreases count - n,
    {
        let s = gen_syllable(tactics, phonemes, sep_syllable);
        proof {
            syls.lemma_flatten_push(s@);
            syls = syls.push(s@);
        }
        word.append(s.as_str());
        n += 1;
    }
    word
}

/// One candidate word: a syllable count drawn from one to the syllable bound
/// (a bound of zero counts as one), and that many syllables concatenated.
/// The candidate is returned where it holds none of `filters`, else `None`.
pub fn gen_word(
    tactics: &[Tactic],
    max_syllables: &u8,
    phonemes: &Vec<(char, Vec<String>)>,
    sep_syllable: &bool,
    filters: &Vec<String>,
) -> (r: Option<String>)
    ensures
        r matches Some(w) ==> word_yields(tactics@, phonemes@, *max_syllables, *sep_syllable, w@)
            && !rejected(w@, filters@),
        r is None ==> filters@.len() > 0,
        r is None ==> exists|w: Seq<char>|
            word_yields(tactics@, phonemes@, *max_syllables, *sep_syllable, w) && rejected(w, filters@),
{
    let high: u8 = if *max_syllables == 0 { 1 } else { *max_syllables };
    let syllable_qtd = draw_between(1, high);
    let word = gen_syllables(syllable_qtd, tactics, phonemes, sep_syllable);
    if passes_filters(&word, filters) {
        Some(word)
    } else {
        assert(word_yields(tactics@, phonemes@, *max_syllables, *sep_syllable, word@));
        None
    }
}

} // verus!
