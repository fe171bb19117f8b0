use crate::grammar::Config;
use crate::synth::{gen_word, word_yields};
use vstd::prelude::*;

verus! {

/// Consecutive rejected candidates after which generation gives up.
pub const REJECTION_LIMIT: u32 = 100;

/// Why a generation run failed.
#[derive(Clone, Copy, Debug, PartialEq, Eq, Structural)]
pub enum GenError {
    /// No place to look for a configuration could be determined.
    ConfigurationUnavailable,
    /// The filters rejected too many candidates in a row.
    FilterTooRestrictive,
}

impl GenError {
    /// A message for the operator.
    pub fn message(&self) -> (r: &'static str)
        ensures
            *self == GenError::ConfigurationUnavailable ==> r@ == "Couldn't find home directory."@,
            *self == GenError::FilterTooRestrictive ==> r@
                == "The filters are impeding the generation of words,\nchange the filters in order to generate them."@,
    {
        match self {
            GenError::ConfigurationUnavailable => "Couldn't find home directory.",
            GenError::FilterTooRestrictive => "The filters are impeding the generation of words,\nchange the filters in order to generate them.",
        }
    }
}

/// `p` occurs in `s` as a contiguous run of characters.
pub open spec fn contains_sub(s: Seq<char>, p: Seq<char>) -> bool {
    exists|i: int| 0 <= i && i + p.len() <= s.len() && #[trigger] s.subrange(i, i + p.len()) == p
}

/// Some filter of `filters` occurs in `w`.
pub open spec fn rejected(w: Seq<char>, filters: Seq<String>) -> bool {
    exists|j: int| 0 <= j < filters.len() && contains_sub(w, #[trigger] filters[j]@)
}

/// Relies on `str::contains` with a `&str` pattern: whether the pattern
/// occurs in the text as a substring.
#[verifier::external_body]
fn contains_text(text: &str, pattern: &str) -> (r: bool)
    ensures
        r == contains_sub(text@, pattern@),
{
    text.contains(pattern)
}

/// Whether `word` holds none of `filters`; matching is exact and case-sensitive.
pub fn passes_filters(word: &String, filters: &Vec<String>) -> (r: bool)
    ensures
        r == !rejected(word@, filters@),
{
    let mut i: usize = 0;
    while i < filters.len()
        invariant
            0 <= i <= filters@.len(),
            forall|j: int| 0 <= j < i ==> !contains_sub(word@, #[trigger] filters@[j]@),
        decreases filters@.len() - i,
    {
        if contains_text(word.as_str(), filters[i].as_str()) {
            return false;
        }
        i += 1;
    }
    true
}

/// The count of consecutive rejections after one more candidate: back to zero
/// when it was accepted, one more when it was not, and `None` once that
/// reaches `REJECTION_LIMIT`.
pub fn next_rejections(rejections: u32, accepted: bool) -> (r: Option<u32>)
    requires
        rejections < REJECTION_LIMIT,
    ensures
        accepted ==> r == Some(0u32),
        !accepted && rejections + 1 < REJECTION_LIMIT ==> r == Some((rejections + 1) as u32),
        !accepted && rejections + 1 == REJECTION_LIMIT ==> r is None,
{
    if accepted {
        Some(0)
    } else if rejections + 1 < REJECTION_LIMIT {
        Some(rejections + 1)
    } else {
        None
    }
}

/// Every word that `config`'s grammar can form holds one of its filters.
pub open spec fn always_rejected(config: Config) -> bool {
    forall|w: Seq<char>|
        #[trigger] word_yields(config.phonotactics@, config.phonemes@, config.max_syllables, config.separate_syllables, w)
            ==> rejected(w, config.filters@)
}

/// The words accepted from a run of candidates (`None` is a rejected one),
/// in order, and the number of rejections since the last acceptance.
pub open spec fn tally(cands: Seq<Option<Seq<char>>>) -> (Seq<Seq<char>>, nat)
    decreases cands.len(),
{
    if cands.len() == 0 {
        (Seq::empty(), 0)
    } else {
        let (ws, n) = tally(cands.drop_last());
        match cands.last() {
            Some(w) => (ws.push(w), 0),
            None => (ws, n + 1),
        }
    }
}

/// Generation stops after these candidates: the quota is met, or the
/// rejection limit is reached.
pub open spec fn finished(quantity: nat, cands: Seq<Option<Seq<char>>>) -> bool {
    tally(cands).0.len() >= quantity || tally(cands).1 >= REJECTION_LIMIT
}

/// A candidate that one draw of `gen_word` on `config` can give.
pub open spec fn possible_candidate(config: Config, c: Option<Seq<char>>) -> bool {
    let ok = |w: Seq<char>|
        word_yields(config.phonotactics@, config.phonemes@, config.max_syllables, config.separate_syllables, w);
    match c {
        Some(w) => ok(w) && !rejected(w, config.filters@),
        None => exists|w: Seq<char>| ok(w) && rejected(w, config.filters@),
    }
}

/// `r` is what generation returns after drawing exactly the candidates
/// `cands`: each one possible, generation stopping after the last one and not
/// before, the accepted words returned in order on success, and an error
/// exactly when the rejection limit was reached.
pub open spec fn run_trace(config: Config, cands: Seq<Option<Seq<char>>>, r: Result<Vec<String>, GenError>) -> bool {
    let q = config.word_quantity as nat;
    &&& forall|i: int| 0 <= i < cands.len() ==> possible_candidate(config, #[trigger] cands[i])
    &&& finished(q, cands)
    &&& forall|k: int| 0 <= k < cands.len() ==> !finished(q, #[trigger] cands.take(k))
    &&& cands.len() <= REJECTION_LIMIT * q
    &&& r is Err <==> tally(cands).1 >= REJECTION_LIMIT
    &&& r matches Ok(ws) ==> ws@.map_values(|s: String| s@) == tally(cands).0
}

/// What every run of generation on `config` returns.
pub open spec fn run_outcome(config: Config, r: Result<Vec<String>, GenError>) -> bool {
    &&& exists|cands: Seq<Option<Seq<char>>>| #[trigger] run_trace(config, cands, r)
    &&& r matches Ok(ws) ==> {
        &&& ws@.len() == config.word_quantity
        &&& forall|i: int| 0 <= i < ws@.len() ==> {
            &&& word_yields(config.phonotactics@, config.phonemes@, config.max_syllables, config.separate_syllables, #[trigger] ws@[i]@)
            &&& !rejected(ws@[i]@, config.filters@)
        }
    }
    &&& r matches Err(e) ==> e == GenError::FilterTooRestrictive
    &&& r is Err ==> exists|w: Seq<char>|
        word_yields(config.phonotactics@, config.phonemes@, config.max_syllables, config.separate_syllables, w)
            && rejected(w, config.filters@)
    &&& config.filters@.len() == 0 ==> r is Ok
    &&& config.word_quantity == 0 ==> r is Ok
    &&& config.word_quantity > 0 && always_rejected(config) ==> r is Err
}

/// One step of generation on a drawn candidate: an accepted word is appended
/// and the rejection count starts over; a rejected one leaves the words as
/// they are and counts one more rejection, `None` once the limit is reached.
pub fn record_candidate(words: &mut Vec<String>, rejections: u32, candidate: Option<String>) -> (r: Option<u32>)
    requires
        rejections < REJECTION_LIMIT,
    ensures
        candidate matches Some(w) ==> final(words)@ == old(words)@.push(w) && r == Some(0u32),
        candidate is None ==> final(words)@ == old(words)@,
        candidate is None && rejections + 1 < REJECTION_LIMIT ==> r == Some((rejections + 1) as u32),
        candidate is None && rejections + 1 == REJECTION_LIMIT ==> r is None,
{
    let accepted = candidate.is_some();
    if let Some(w) = candidate {
        words.push(w);
    }
    next_rejections(rejections, accepted)
}

/// Generates `word_quantity` words from the grammar, discarding each candidate
/// that holds a filter. Fails once `REJECTION_LIMIT` candidates in a row have
/// been discarded.
pub fn run(config: &Config) -> (r: Result<Vec<String>, GenError>)
    ensures
        run_outcome(*config, r),
{
    let mut words: Vec<String> = Vec::new();
    let mut none_counter: u32 = 0;
    let quantity = config.word_quantity as usize;
    let ghost q = config.word_quantity as nat;
    let ghost mut cands: Seq<Option<Seq<char>>> = Seq::empty();
    assert(tally(cands).0 =~= words@.map_values(|s: String| s@));
    while words.len() < quantity
        invariant
            words@.len() <= quantity,
            quantity == q,
            q == config.word_quantity,
            none_counter < REJECTION_LIMIT,
            forall|i: int| 0 <= i < words@.len() ==> {
                &&& word_yields(config.phonotactics@, config.phonemes@, config.max_syllables, config.separate_syllables, #[trigger] words@[i]@)
                &&& !rejected(words@[i]@, config.filters@)
            },
            always_rejected(*config) ==> words@.len() == 0,
            tally(cands).0 == words@.map_values(|s: String| s@),
            tally(cands).1 == none_counter,
            forall|i: int| 0 <= i < cands.len() ==> possible_candidate(*config, #[trigger] cands[i]),
            forall|k: int| 0 <= k < cands.len() ==> !finished(q, #[trigger] cands.take(k)),
            cands.len() <= REJECTION_LIMIT * words@.len() + none_counter,
            none_counter > 0 ==> words@.len() < quantity,
        decreases (quantity - words@.len()) * 101 + (REJECTION_LIMIT - none_counter),
    {
        let word = gen_word(
            config.phonotactics.as_slice(),
            &config.max_syllables,
            &config.phonemes,
            &config.separate_syllables,
            &config.filters,
        );
        let ghost c: Option<Seq<char>> = match &word {
            Some(w) => Some(w@),
            None => None,
        };
        let ghost old_words = words@;
        let ghost old_cands = cands;
        proof {
            assert(!finished(q, cands));
            cands = cands.push(c);
            assert(cands.drop_last() == old_cands);
            assert forall|k: int| 0 <= k < cands.len() implies !finished(q, #[trigger] cands.take(k)) by {
                if k < old_cands.len() {
                    assert(cands.take(k) == old_cands.take(k));
                } else {
                    assert(cands.take(k) == old_cands);
                }
            }
            assert(possible_candidate(*config, c));
        }
        let next = record_candidate(&mut words, none_counter, word);
        proof {
            assert(tally(cands).0 =~= words@.map_values(|s: String| s@)) by {
                if c is Some {
                    assert(words@ == old_words.push(words@.last()));
                }
            }
        }
        match next {
            Some(n) => {
                none_counter = n;
            },
            None => {
                proof {
                    assert(run_trace(*config, cands, Err::<Vec<String>, GenError>(GenError::FilterTooRestrictive)));
                }
                return Err(GenError::FilterTooRestrictive);
            },
        }
    }
    proof {
        assert(run_trace(*config, cands, Ok::<Vec<String>, GenError>(words)));
    }
    Ok(words)
}

} // verus!
