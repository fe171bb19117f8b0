use crate::generate::{always_rejected, contains_sub, finished, run_outcome, run_trace, tally, GenError, REJECTION_LIMIT};
use crate::grammar::{category_phonemes, effective_max, tactic_categories, Config, Tactic};
use crate::synth::{choice_yields, category_yields, slot_yields, syllable_from, syllable_yields, word_yields};
use vstd::prelude::*;

verus! {

broadcast use vstd::seq_lib::group_seq_properties;

/// No phoneme of any category holds the syllable marker.
pub open spec fn marker_free(ph: Seq<(char, Vec<String>)>) -> bool {
    forall|c: char, s: Seq<char>| #[trigger] category_phonemes(ph, c).contains(s) ==> !s.contains('-')
}

/// Joining pieces that lack a character gives a sequence that lacks it.
proof fn lemma_flatten_lacks(parts: Seq<Seq<char>>, x: char)
    requires
        forall|i: int| 0 <= i < parts.len() ==> !(#[trigger] parts[i]).contains(x),
    ensures
        !parts.flatten().contains(x),
    decreases parts.len(),
{
    if parts.len() > 0 {
        let rest = parts.drop_first();
        assert forall|i: int| 0 <= i < rest.len() implies !(#[trigger] rest[i]).contains(x) by {
            assert(rest[i] == parts[i + 1]);
        }
        lemma_flatten_lacks(rest, x);
        assert(!parts[0].contains(x));
        let f = parts.flatten();
        assert(f == parts[0] + rest.flatten());
        if f.contains(x) {
            let k = choose|k: int| 0 <= k < f.len() && f[k] == x;
            if k < parts[0].len() {
                assert(parts[0][k] == x);
            } else {
                assert(rest.flatten()[k - parts[0].len()] == x);
            }
        }
    }
}

/// With the marker on, a possible syllable ends with exactly one `-`, and
/// holds no other where no phoneme holds one.
pub proof fn lemma_syllable_marked(
    tactics: Seq<Tactic>,
    ph: Seq<(char, Vec<String>)>,
    s: Seq<char>,
)
    requires
        syllable_yields(tactics, ph, true, s),
    ensures
        s.len() > 0,
        s.last() == '-',
        marker_free(ph) ==> !s.drop_last().contains('-'),
{
    let parts = choose|parts: Seq<Seq<char>>|
        {
            &&& parts.len() == tactics.len()
            &&& forall|i: int| 0 <= i < parts.len() ==> slot_yields(tactics[i], ph, #[trigger] parts[i])
            &&& s == #[trigger] syllable_from(parts, true)
        };
    assert(s.drop_last() =~= parts.flatten());
    if marker_free(ph) {
        assert forall|i: int| 0 <= i < parts.len() implies !(#[trigger] parts[i]).contains('-') by {
            assert(slot_yields(tactics[i], ph, parts[i]));
            if parts[i].len() > 0 {
                let cs = tactic_categories(tactics[i]);
                assert(choice_yields(cs, ph, parts[i]));
                let k = choose|k: int| 0 <= k < cs.len() && category_yields(ph, #[trigger] cs[k], parts[i]);
                assert(category_phonemes(ph, cs[k]).contains(parts[i]));
            }
        }
        lemma_flatten_lacks(parts, '-');
    }
}

/// With the marker on, a possible word splits into its syllables so that each
/// one ends with the marker, the last one included; where no phoneme holds
/// the marker, each syllable holds it only at its end.
pub proof fn lemma_word_marked(config: Config, w: Seq<char>)
    requires
        config.separate_syllables,
        word_yields(config.phonotactics@, config.phonemes@, config.max_syllables, true, w),
    ensures
        w.len() > 0,
        w.last() == '-',
        exists|syls: Seq<Seq<char>>|
            {
                &&& 1 <= syls.len() <= effective_max(config.max_syllables)
                &&& w == #[trigger] syls.flatten()
                &&& forall|i: int| 0 <= i < syls.len() ==> {
                    &&& (#[trigger] syls[i]).len() > 0
                    &&& syls[i].last() == '-'
                    &&& marker_free(config.phonemes@) ==> !syls[i].drop_last().contains('-')
                }
            },
{
    let tactics = config.phonotactics@;
    let ph = config.phonemes@;
    let syls = choose|syls: Seq<Seq<char>>|
        {
            &&& 1 <= syls.len() <= effective_max(config.max_syllables)
            &&& forall|i: int| 0 <= i < syls.len() ==> syllable_yields(tactics, ph, true, #[trigger] syls[i])
            &&& w == #[trigger] syls.flatten()
        };
    assert forall|i: int| 0 <= i < syls.len() implies {
        &&& (#[trigger] syls[i]).len() > 0
        &&& syls[i].last() == '-'
        &&& marker_free(ph) ==> !syls[i].drop_last().contains('-')
    } by {
        lemma_syllable_marked(tactics, ph, syls[i]);
    }
    syls.lemma_flatten_and_flatten_alt_are_equivalent();
    let n = syls.len();
    assert(syls.flatten() == syls.drop_last().flatten_alt() + syls.last()) by {
        syls.drop_last().lemma_flatten_and_flatten_alt_are_equivalent();
    }
    assert(syls.last() == syls[n - 1]);
}

/// A filter that every possible word holds makes a run that asks for words
/// fail with `FilterTooRestrictive`, after exactly `REJECTION_LIMIT`
/// rejected candidates in a row and no more than that many candidates per
/// word asked for.
pub proof fn lemma_unconditional_filter_aborts(config: Config, j: int, r: Result<Vec<String>, GenError>)
    requires
        run_outcome(config, r),
        config.word_quantity > 0,
        0 <= j < config.filters@.len(),
        forall|w: Seq<char>|
            #[trigger] word_yields(config.phonotactics@, config.phonemes@, config.max_syllables, config.separate_syllables, w)
                ==> contains_sub(w, config.filters@[j]@),
    ensures
        r == Err::<Vec<String>, GenError>(GenError::FilterTooRestrictive),
        exists|cands: Seq<Option<Seq<char>>>|
            {
                &&& #[trigger] run_trace(config, cands, r)
                &&& tally(cands).1 == REJECTION_LIMIT
                &&& cands.len() <= REJECTION_LIMIT * config.word_quantity
            },
{
    assert(always_rejected(config));
    let cands = choose|cands: Seq<Option<Seq<char>>>| #[trigger] run_trace(config, cands, r);
    let q = config.word_quantity as nat;
    assert(cands.len() > 0) by {
        if cands.len() == 0 {
            assert(tally(cands).1 == 0);
        }
    }
    let k = cands.len() - 1;
    assert(cands.take(k) == cands.drop_last());
    assert(!finished(q, cands.take(k)));
}

/// Two runs on one grammar differ only in the words drawn: where both succeed
/// they hold the same number of words, each of one to the syllable bound
/// syllables, and without filters both succeed.
pub proof fn lemma_same_shape(config: Config, r1: Result<Vec<String>, GenError>, r2: Result<Vec<String>, GenError>)
    requires
        run_outcome(config, r1),
        run_outcome(config, r2),
    ensures
        config.filters@.len() == 0 ==> r1 is Ok && r2 is Ok,
        r1 is Ok && r2 is Ok ==> r1->Ok_0@.len() == r2->Ok_0@.len(),
        r1 is Ok ==> forall|i: int| 0 <= i < r1->Ok_0@.len() ==>
            word_yields(config.phonotactics@, config.phonemes@, config.max_syllables, config.separate_syllables, #[trigger] r1->Ok_0@[i]@),
        r2 is Ok ==> forall|i: int| 0 <= i < r2->Ok_0@.len() ==>
            word_yields(config.phonotactics@, config.phonemes@, config.max_syllables, config.separate_syllables, #[trigger] r2->Ok_0@[i]@),
{
}

} // verus!
