use phoneme_reverser::tui::phoneme_db::{PhonemeCategory, PhonemeDatabase};

#[test]
fn test_phoneme_database_creation() {
    let db = PhonemeDatabase::new();
    assert_eq!(db.get_vowels().len(), 8, "Should have 8 vowels");
    assert_eq!(db.get_consonants().len(), 20, "Should have 20 consonants");
}

#[test]
fn test_get_phoneme_by_key() {
    let db = PhonemeDatabase::new();
    let phoneme = db.get_by_key('a').unwrap();
    assert_eq!(phoneme.ipa, "a");
    assert_eq!(phoneme.espeak, "a");
    assert_eq!(phoneme.category, PhonemeCategory::Vowel);
}

#[test]
fn test_get_consonant_by_key() {
    let db = PhonemeDatabase::new();
    let phoneme = db.get_by_key('k').unwrap();
    assert_eq!(phoneme.ipa, "k");
    assert_eq!(phoneme.espeak, "k");
    assert_eq!(phoneme.category, PhonemeCategory::Consonant);
}

#[test]
fn test_invalid_key_returns_none() {
    let db = PhonemeDatabase::new();
    assert!(db.get_by_key('X').is_none());
    assert!(db.get_by_key('1').is_none());
}

#[test]
fn test_all_vowels_have_unique_keys() {
    let db = PhonemeDatabase::new();
    let mut keys: Vec<char> = db.get_vowels().iter().map(|p| p.key).collect();
    keys.sort();
    keys.dedup();
    assert_eq!(keys.len(), 8, "All vowel keys should be unique");
}

#[test]
fn test_all_consonants_have_unique_keys() {
    let db = PhonemeDatabase::new();
    let mut keys: Vec<char> = db.get_consonants().iter().map(|p| p.key).collect();
    keys.sort();
    keys.dedup();
    assert_eq!(keys.len(), 20, "All consonant keys should be unique");
}

#[test]
fn no_key_is_bound_twice_in_the_whole_table() {
    let db = PhonemeDatabase::new();
    let mut keys: Vec<char> = db
        .get_vowels()
        .iter()
        .chain(db.get_consonants().iter())
        .map(|p| p.key)
        .collect();
    keys.sort();
    keys.dedup();
    assert_eq!(keys.len(), 28);
}

#[test]
fn every_entry_is_found_by_its_own_key() {
    let db = PhonemeDatabase::new();
    for p in db.get_vowels().iter().chain(db.get_consonants().iter()) {
        assert_eq!(db.get_by_key(p.key), Some(p));
    }
}

#[test]
fn vowels_are_vowels_and_consonants_are_consonants() {
    let db = PhonemeDatabase::new();
    assert!(db.get_vowels().iter().all(|p| p.category == PhonemeCategory::Vowel));
    assert!(db.get_consonants().iter().all(|p| p.category == PhonemeCategory::Consonant));
}

#[test]
fn table_holds_the_notation_of_the_synthesizer() {
    let db = PhonemeDatabase::new();
    let schwa = db.get_by_key('@').unwrap();
    assert_eq!(schwa.ipa, "ə");
    assert_eq!(schwa.espeak, "@");
    assert_eq!(schwa.description_ja, "曖昧母音 (about)");
    let yod = db.get_by_key('y').unwrap();
    assert_eq!(yod.ipa, "j");
    assert_eq!(yod.espeak, "j");
    let eng = db.get_by_key('N').unwrap();
    assert_eq!(eng.ipa, "ŋ");
    assert_eq!(eng.espeak, "N");
    assert_eq!(db.get_vowels()[0].clone(), db.get_vowels()[0]);
    assert_eq!(PhonemeDatabase::default().get_consonants().len(), 20);
}
