use palavradeiro::generate::{next_rejections, passes_filters, record_candidate, REJECTION_LIMIT};
use palavradeiro::synth::{
    choose_phoneme_of, gen_syllable, gen_syllables, gen_word, maybe_choice, process_maybe, process_one, process_tactic,
};
use palavradeiro::{run, Config, GenError, Tactic};

fn strings(items: &[&str]) -> Vec<String> {
    items.iter().map(|s| s.to_string()).collect()
}

fn default_with(quantity: u16, filters: &[&str], separate: bool) -> Config {
    let d = Config::from_default();
    Config::build(d.phonotactics, d.phonemes, d.max_syllables, quantity, strings(filters), separate)
}

fn single_category(phoneme: &str, max_syllables: u8, quantity: u16, separate: bool) -> Config {
    Config::build(
        vec![Tactic::One(vec!['K'])],
        vec![('K', strings(&[phoneme]))],
        max_syllables,
        quantity,
        vec![],
        separate,
    )
}

const CONSONANTS: [&str; 9] = ["m", "n", "p", "t", "k", "s", "w", "l", "j"];
const VOWELS: [&str; 5] = ["a", "e", "i", "o", "u"];
const NASALS: [&str; 2] = ["m", "n"];

fn is_in(set: &[&str], c: char) -> bool {
    set.iter().any(|s| s.chars().next() == Some(c) && s.len() == 1)
}

/// Whether `w` splits into `count` syllables of the form (C)? V (N)?.
fn default_syllables(w: &[char], count: usize) -> bool {
    if w.is_empty() {
        return count == 0;
    }
    if count == 0 {
        return false;
    }
    for len in 1..=3usize.min(w.len()) {
        let (syl, rest) = w.split_at(len);
        let ok = match syl {
            [v] => is_in(&VOWELS, *v),
            [a, b] => (is_in(&CONSONANTS, *a) && is_in(&VOWELS, *b)) || (is_in(&VOWELS, *a) && is_in(&NASALS, *b)),
            [c, v, n] => is_in(&CONSONANTS, *c) && is_in(&VOWELS, *v) && is_in(&NASALS, *n),
            _ => false,
        };
        if ok && default_syllables(rest, count - 1) {
            return true;
        }
    }
    false
}

fn default_word(w: &str, max: usize) -> bool {
    let chars: Vec<char> = w.chars().collect();
    (1..=max).any(|n| default_syllables(&chars, n))
}

#[test]
fn build_keeps_every_part() {
    let c = Config::build(
        vec![Tactic::One(vec!['V']), Tactic::Maybe(vec!['C', 'N'])],
        vec![('V', strings(&["a"]))],
        4,
        7,
        strings(&["aa"]),
        true,
    );
    assert_eq!(c.phonotactics.len(), 2);
    assert!(matches!(&c.phonotactics[1], Tactic::Maybe(v) if v == &vec!['C', 'N']));
    assert_eq!(c.phonemes, vec![('V', strings(&["a"]))]);
    assert_eq!(c.max_syllables, 4);
    assert_eq!(c.word_quantity, 7);
    assert_eq!(c.filters, strings(&["aa"]));
    assert!(c.separate_syllables);
}

#[test]
fn default_grammar_parts() {
    let d = Config::from_default();
    assert_eq!(d.phonotactics.len(), 3);
    assert!(matches!(&d.phonotactics[0], Tactic::Maybe(v) if v == &vec!['C']));
    assert!(matches!(&d.phonotactics[1], Tactic::One(v) if v == &vec!['V']));
    assert!(matches!(&d.phonotactics[2], Tactic::Maybe(v) if v == &vec!['N']));
    assert_eq!(d.phonemes[0], ('C', strings(&CONSONANTS)));
    assert_eq!(d.phonemes[1], ('V', strings(&VOWELS)));
    assert_eq!(d.phonemes[2], ('N', strings(&NASALS)));
    assert_eq!(d.max_syllables, 3);
    assert_eq!(d.word_quantity, 100);
    assert!(d.filters.is_empty());
    assert!(!d.separate_syllables);
}

#[test]
fn default_grammar_five_words() {
    let words = run(&default_with(5, &[], false)).unwrap();
    assert_eq!(words.len(), 5);
    for w in &words {
        assert!(!w.is_empty());
        assert!(default_word(w, 3), "{}", w);
    }
}

#[test]
fn default_grammar_full_quota() {
    let words = run(&Config::from_default()).unwrap();
    assert_eq!(words.len(), 100);
    assert!(words.iter().all(|w| default_word(w, 3)));
}

#[test]
fn zero_quantity_gives_no_words() {
    assert_eq!(run(&default_with(0, &["a", "e", "i", "o", "u"], false)), Ok(vec![]));
}

#[test]
fn filters_are_never_in_accepted_words() {
    let words = run(&default_with(50, &["a", "ma"], false)).unwrap();
    assert_eq!(words.len(), 50);
    for w in &words {
        assert!(!w.contains('a'));
        assert!(default_word(w, 3));
    }
}

#[test]
fn filter_on_every_vowel_aborts() {
    let r = run(&default_with(5, &["a", "e", "i", "o", "u"], false));
    assert_eq!(r, Err(GenError::FilterTooRestrictive));
}

#[test]
fn empty_filter_aborts() {
    assert_eq!(run(&default_with(1, &[""], false)), Err(GenError::FilterTooRestrictive));
}

#[test]
fn rejection_limit_is_a_hundred() {
    assert_eq!(REJECTION_LIMIT, 100);
}

#[test]
fn separator_closes_every_syllable() {
    let words = run(&default_with(30, &[], true)).unwrap();
    assert_eq!(words.len(), 30);
    for w in &words {
        assert!(w.ends_with('-'));
        let syllables: Vec<&str> = w[..w.len() - 1].split('-').collect();
        assert!((1..=3).contains(&syllables.len()));
        for s in syllables {
            let chars: Vec<char> = s.chars().collect();
            assert!(default_syllables(&chars, 1), "{}", w);
        }
    }
}

#[test]
fn same_grammar_same_shape() {
    let c = default_with(20, &[], true);
    let a = run(&c).unwrap();
    let b = run(&c).unwrap();
    assert_eq!(a.len(), b.len());
    for w in a.iter().chain(b.iter()) {
        let marks = w.matches('-').count();
        assert!((1..=3).contains(&marks));
    }
}

#[test]
fn single_phoneme_grammar_repeats_it() {
    let words = run(&single_category("ka", 1, 4, false)).unwrap();
    assert_eq!(words, strings(&["ka", "ka", "ka", "ka"]));
}

#[test]
fn zero_syllable_bound_counts_as_one() {
    let words = run(&single_category("ka", 0, 3, true)).unwrap();
    assert_eq!(words, strings(&["ka-", "ka-", "ka-"]));
}

#[test]
fn syllable_count_within_bound() {
    let words = run(&single_category("ka", 3, 40, false)).unwrap();
    for w in &words {
        assert!(["ka", "kaka", "kakaka"].contains(&w.as_str()));
    }
}

#[test]
fn missing_category_contributes_nothing() {
    let c = Config::build(vec![Tactic::One(vec!['X'])], vec![('V', strings(&["a"]))], 2, 3, vec![], true);
    let words = run(&c).unwrap();
    assert_eq!(words.len(), 3);
    assert!(words.iter().all(|w| w == "-" || w == "--"));
}

#[test]
fn empty_category_contributes_nothing() {
    let c = Config::build(
        vec![Tactic::One(vec!['E']), Tactic::One(vec![]), Tactic::One(vec!['V'])],
        vec![('E', vec![]), ('V', strings(&["o"]))],
        1,
        2,
        vec![],
        false,
    );
    assert_eq!(run(&c).unwrap(), strings(&["o", "o"]));
}

#[test]
fn first_entry_of_a_symbol_counts() {
    let ph = vec![('C', strings(&["x"])), ('C', strings(&["y"]))];
    assert_eq!(choose_phoneme_of('C', &ph), "x");
    assert_eq!(choose_phoneme_of('D', &ph), "");
}

#[test]
fn phoneme_drawn_from_its_category() {
    let ph = vec![('V', strings(&["a", "e"])), ('C', strings(&["t"]))];
    for _ in 0..20 {
        let p = choose_phoneme_of('V', &ph);
        assert!(p == "a" || p == "e");
    }
    assert_eq!(choose_phoneme_of('C', &ph), "t");
}

#[test]
fn category_choice() {
    assert_eq!(process_one(&vec![]), None);
    assert_eq!(process_one(&vec!['Q']), Some('Q'));
    assert_eq!(process_maybe(&vec![]), None);
    for _ in 0..20 {
        let r = process_maybe(&vec!['A', 'B']);
        assert!(r.is_none() || r == Some('A') || r == Some('B'));
    }
}

#[test]
fn optional_slot_sometimes_empty() {
    let ph = vec![('C', strings(&["t"]))];
    let outs: Vec<String> = (0..200).map(|_| process_tactic(&Tactic::Maybe(vec!['C']), &ph)).collect();
    assert!(outs.iter().all(|s| s.is_empty() || s == "t"));
    assert!(outs.iter().any(|s| s.is_empty()));
    assert!(outs.iter().any(|s| s == "t"));
    assert_eq!(process_tactic(&Tactic::One(vec!['C']), &ph), "t");
}

#[test]
fn syllable_joins_slots_in_order() {
    let ph = vec![('C', strings(&["t"])), ('V', strings(&["a"])), ('N', strings(&["n"]))];
    let t = vec![Tactic::One(vec!['C']), Tactic::One(vec!['V']), Tactic::One(vec!['N'])];
    assert_eq!(gen_syllable(&t, &ph, &false), "tan");
    assert_eq!(gen_syllable(&t, &ph, &true), "tan-");
    assert_eq!(gen_syllable(&[], &ph, &true), "-");
}

#[test]
fn word_is_screened_by_filters() {
    let ph = vec![('K', strings(&["ka"]))];
    let t = vec![Tactic::One(vec!['K'])];
    assert_eq!(gen_word(&t, &1, &ph, &false, &vec![]), Some("ka".to_string()));
    assert_eq!(gen_word(&t, &1, &ph, &true, &strings(&["x"])), Some("ka-".to_string()));
    assert_eq!(gen_word(&t, &1, &ph, &false, &strings(&["a"])), None);
}

#[test]
fn filter_matching_is_exact() {
    assert!(!passes_filters(&"banana".to_string(), &strings(&["nan"])));
    assert!(passes_filters(&"banana".to_string(), &strings(&["xyz", "nab"])));
    assert!(passes_filters(&"Banana".to_string(), &strings(&["b"])));
    assert!(!passes_filters(&"ka-ta-".to_string(), &strings(&["a-t"])));
    assert!(passes_filters(&"anything".to_string(), &vec![]));
    assert!(!passes_filters(&"".to_string(), &strings(&[""])));
}

#[test]
fn error_messages() {
    assert_eq!(GenError::ConfigurationUnavailable.message(), "Couldn't find home directory.");
    assert!(GenError::FilterTooRestrictive.message().contains("filters"));
}

#[test]
fn rejection_count_steps() {
    assert_eq!(next_rejections(0, false), Some(1));
    assert_eq!(next_rejections(57, true), Some(0));
    assert_eq!(next_rejections(98, false), Some(99));
    assert_eq!(next_rejections(99, false), None);
    assert_eq!(next_rejections(99, true), Some(0));
}

#[test]
fn optional_choice_follows_the_coin() {
    assert_eq!(maybe_choice(true, &vec!['A']), None);
    assert_eq!(maybe_choice(false, &vec!['A']), Some('A'));
    assert_eq!(maybe_choice(false, &vec![]), None);
    let r = maybe_choice(false, &vec!['A', 'B']);
    assert!(r == Some('A') || r == Some('B'));
}

#[test]
fn exact_syllable_count() {
    let ph = vec![('K', strings(&["ka"]))];
    let t = vec![Tactic::One(vec!['K'])];
    assert_eq!(gen_syllables(0, &t, &ph, &true), "");
    assert_eq!(gen_syllables(3, &t, &ph, &false), "kakaka");
    assert_eq!(gen_syllables(2, &t, &ph, &true), "ka-ka-");
}

#[test]
fn candidate_step() {
    let mut words = strings(&["pa"]);
    assert_eq!(record_candidate(&mut words, 42, Some("ti".to_string())), Some(0));
    assert_eq!(words, strings(&["pa", "ti"]));
    assert_eq!(record_candidate(&mut words, 5, None), Some(6));
    assert_eq!(words, strings(&["pa", "ti"]));
    assert_eq!(record_candidate(&mut words, 99, None), None);
    assert_eq!(words, strings(&["pa", "ti"]));
}

#[test]
fn error_message_text() {
    assert_eq!(
        GenError::FilterTooRestrictive.message(),
        "The filters are impeding the generation of words,\nchange the filters in order to generate them."
    );
}
