use colemak_trainer::words::WordList;

fn word(s: &str) -> Vec<char> {
    s.chars().collect()
}

#[test]
fn bank_keeps_exactly_the_spellable_words() {
    let corpus = vec![word("ROSE"), word("TARS"), word("NEST"), word("JAZZ"), word("STONE")];
    let allowed = vec!['a', 'r', 's', 't', 'n', 'e', 'i', 'o'];
    let bank = WordList::new(&corpus, &allowed);
    assert_eq!(bank.words, vec![word("ROSE"), word("TARS"), word("NEST"), word("STONE")]);
}

#[test]
fn drawn_words_use_only_allowed_letters() {
    let corpus = vec![word("ROSE"), word("TARS"), word("JAZZ")];
    let allowed = vec!['a', 'r', 's', 't', 'n', 'e', 'i', 'o'];
    let bank = WordList::new(&corpus, &allowed);
    for _ in 0..50 {
        let w = bank.next_word();
        assert!(w
            .iter()
            .all(|c| allowed.contains(&c.to_ascii_lowercase())));
        assert!(bank.words.contains(&w));
    }
}

#[test]
fn empty_bank_falls_back_to_the_placeholder_word() {
    let corpus = vec![word("ROSE"), word("TARS")];
    let allowed = vec!['z'];
    let bank = WordList::new(&corpus, &allowed);
    assert!(bank.words.is_empty());
    assert_eq!(bank.next_word(), word("hello"));
}

#[test]
fn filtering_is_case_insensitive() {
    let corpus = vec![word("Rose"), word("rose"), word("ROSE")];
    let allowed = vec!['r', 'o', 's', 'e'];
    let bank = WordList::new(&corpus, &allowed);
    assert_eq!(bank.words.len(), 3);
}
