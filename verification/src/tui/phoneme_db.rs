//! The reference table of phonetic units.

use vstd::prelude::*;

verus! {

/// Whether a phonetic unit is a vowel or a consonant.
#[derive(Debug, Clone, Copy, PartialEq, Eq, Structural)]
pub enum PhonemeCategory {
    Vowel,
    Consonant,
}

/// One entry of the reference table.
#[derive(Debug, PartialEq)]
pub struct Phoneme {
    /// The canonical identifier, in the notation of the phonetic alphabet.
    pub ipa: String,
    /// The notation that the synthesizer understands.
    pub espeak: String,
    /// The label shown to the user.
    pub description_ja: String,
    /// The key that selects this unit.
    pub key: char,
    pub category: PhonemeCategory,
}

/// The mathematical value of a [`Phoneme`].
pub struct PhonemeView {
    pub ipa: Seq<char>,
    pub espeak: Seq<char>,
    pub description_ja: Seq<char>,
    pub key: char,
    pub category: PhonemeCategory,
}

impl View for Phoneme {
    type V = PhonemeView;

    open spec fn view(&self) -> PhonemeView {
        PhonemeView {
            ipa: self.ipa@,
            espeak: self.espeak@,
            description_ja: self.description_ja@,
            key: self.key,
            category: self.category,
        }
    }
}

impl DeepView for Phoneme {
    type V = PhonemeView;

    open spec fn deep_view(&self) -> PhonemeView {
        self@
    }
}

impl Clone for Phoneme {
    fn clone(&self) -> (copy: Self)
        ensures
            copy == *self,
    {
        Phoneme {
            ipa: self.ipa.clone(),
            espeak: self.espeak.clone(),
            description_ja: self.description_ja.clone(),
            key: self.key,
            category: self.category,
        }
    }
}

/// A vowel of the reference table.
pub open spec fn vowel(ipa: &str, espeak: &str, description_ja: &str, key: char) -> PhonemeView {
    PhonemeView {
        ipa: ipa@,
        espeak: espeak@,
        description_ja: description_ja@,
        key,
        category: PhonemeCategory::Vowel,
    }
}

/// A consonant of the reference table.
pub open spec fn consonant(
    ipa: &str,
    espeak: &str,
    description_ja: &str,
    key: char,
) -> PhonemeView {
    PhonemeView {
        ipa: ipa@,
        espeak: espeak@,
        description_ja: description_ja@,
        key,
        category: PhonemeCategory::Consonant,
    }
}

/// The vowels of the reference table, in display order.
pub open spec fn vowel_table() -> Seq<PhonemeView> {
    seq![
        vowel("a", "a", "日本語「あ」", 'a'),
        vowel("i", "i", "日本語「い」", 'i'),
        vowel("u", "u", "日本語「う」", 'u'),
        vowel("e", "e", "日本語「え」", 'e'),
        vowel("o", "o", "日本語「お」", 'o'),
        vowel("ə", "@", "曖昧母音 (about)", '@'),
        vowel("ɑ", "A", "後舌開母音 (father)", 'A'),
        vowel("ɔ", "O", "後舌半開円唇母音 (thought)", 'O'),
    ]
}

/// The consonants of the reference table, in display order.
pub open spec fn consonant_table() -> Seq<PhonemeView> {
    seq![
        consonant("p", "p", "無声両唇破裂音「ぱ」", 'p'),
        consonant("b", "b", "有声両唇破裂音「ば」", 'b'),
        consonant("t", "t", "無声歯茎破裂音「た」", 't'),
        consonant("d", "d", "有声歯茎破裂音「だ」", 'd'),
        consonant("k", "k", "無声軟口蓋破裂音「か」", 'k'),
        consonant("g", "g", "有声軟口蓋破裂音「が」", 'g'),
        consonant("m", "m", "両唇鼻音「ま」", 'm'),
        consonant("n", "n", "歯茎鼻音「な」", 'n'),
        consonant("ŋ", "N", "軟口蓋鼻音 (sing)", 'N'),
        consonant("s", "s", "無声歯茎摩擦音「さ」", 's'),
        consonant("z", "z", "有声歯茎摩擦音「ざ」", 'z'),
        consonant("ʃ", "S", "無声後部歯茎摩擦音「しゃ」", 'S'),
        consonant("ʒ", "Z", "有声後部歯茎摩擦音 (vision)", 'Z'),
        consonant("h", "h", "無声声門摩擦音「は」", 'h'),
        consonant("f", "f", "無声唇歯摩擦音 (fan)", 'f'),
        consonant("v", "v", "有声唇歯摩擦音 (van)", 'v'),
        consonant("l", "l", "歯茎側音 (light)", 'l'),
        consonant("r", "r", "歯茎ふるえ音 (巻き舌)", 'r'),
        consonant("w", "w", "有声両唇軟口蓋接近音「わ」", 'w'),
        consonant("j", "j", "有声硬口蓋接近音「や」", 'y'),
    ]
}

/// The whole reference table: the vowels, then the consonants.
pub open spec fn phoneme_table() -> Seq<PhonemeView> {
    vowel_table() + consonant_table()
}

/// The first entry of `table` that `key` selects, if any.
pub open spec fn first_with_key(table: Seq<PhonemeView>, key: char) -> Option<PhonemeView>
    decreases table.len(),
{
    if table.len() == 0 {
        None
    } else if table[0].key == key {
        Some(table[0])
    } else {
        first_with_key(table.drop_first(), key)
    }
}

/// The unit of the reference table that `key` selects, if any.
pub open spec fn lookup(key: char) -> Option<PhonemeView> {
    first_with_key(phoneme_table(), key)
}

/// Whether `key` selects a unit of the reference table.
pub open spec fn is_registered(key: char) -> bool {
    lookup(key) is Some
}

/// A table without the key in its first `upto` entries finds what its rest
/// finds.
pub proof fn lemma_first_with_key_skips(table: Seq<PhonemeView>, key: char, upto: int)
    requires
        0 <= upto <= table.len(),
        forall|j: int| 0 <= j < upto ==> table[j].key != key,
    ensures
        first_with_key(table, key) == first_with_key(table.skip(upto), key),
    decreases upto,
{
    if upto == 0 {
        assert(table.skip(0) =~= table);
    } else {
        lemma_first_with_key_skips(table.drop_first(), key, upto - 1);
        assert(table.drop_first().skip(upto - 1) =~= table.skip(upto));
    }
}

/// A search of two tables laid end to end looks in the first, then in the
/// second.
pub proof fn lemma_first_with_key_concat(
    front: Seq<PhonemeView>,
    back: Seq<PhonemeView>,
    key: char,
)
    ensures
        first_with_key(front + back, key) == match first_with_key(front, key) {
            Some(p) => Some(p),
            None => first_with_key(back, key),
        },
    decreases front.len(),
{
    if front.len() == 0 {
    } else {
        assert((front + back).drop_first() =~= front.drop_first() + back);
        lemma_first_with_key_concat(front.drop_first(), back, key);
    }
}

/// No key is bound twice in the reference table, vowels and consonants
/// taken together.
pub proof fn lemma_keys_unique()
    ensures
        forall|i: int, j: int|
            0 <= i < j < phoneme_table().len() ==> phoneme_table()[i].key != phoneme_table()[j].key,
{
}

/// The vowels of the reference table are tagged as vowels and its consonants
/// as consonants.
pub proof fn lemma_categories()
    ensures
        forall|i: int|
            0 <= i < vowel_table().len() ==> (#[trigger] vowel_table()[i]).category
                == PhonemeCategory::Vowel,
        forall|i: int|
            0 <= i < consonant_table().len() ==> (#[trigger] consonant_table()[i]).category
                == PhonemeCategory::Consonant,
{
}

/// Each entry of the reference table is the one that its own key selects.
pub proof fn lemma_lookup_finds(i: int)
    requires
        0 <= i < phoneme_table().len(),
    ensures
        lookup(phoneme_table()[i].key) == Some(phoneme_table()[i]),
{
    let table = phoneme_table();
    let key = table[i].key;
    lemma_keys_unique();
    lemma_first_with_key_skips(table, key, i);
}

/// A key that no entry of the reference table is bound to selects nothing.
pub proof fn lemma_lookup_misses(key: char)
    requires
        forall|i: int| 0 <= i < phoneme_table().len() ==> phoneme_table()[i].key != key,
    ensures
        lookup(key) is None,
{
    let table = phoneme_table();
    lemma_first_with_key_skips(table, key, table.len() as int);
}

/// The reference table, built once and never changed.
pub struct PhonemeDatabase {
    vowels: Vec<Phoneme>,
    consonants: Vec<Phoneme>,
}

fn entry(
    ipa: &str,
    espeak: &str,
    description_ja: &str,
    key: char,
    category: PhonemeCategory,
) -> (p: Phoneme)
    ensures
        p@ == (PhonemeView {
            ipa: ipa@,
            espeak: espeak@,
            description_ja: description_ja@,
            key,
            category,
        }),
{
    Phoneme {
        ipa: String::from_str(ipa),
        espeak: String::from_str(espeak),
        description_ja: String::from_str(description_ja),
        key,
        category,
    }
}

fn find_by_key<'a>(entries: &'a Vec<Phoneme>, key: char) -> (found: Option<&'a Phoneme>)
    ensures
        match found {
            Some(p) => first_with_key(entries.deep_view(), key) == Some(p@),
            None => first_with_key(entries.deep_view(), key) is None,
        },
{
    let ghost table = entries.deep_view();
    let mut i: usize = 0;
    while i < entries.len()
        invariant
            i <= entries.len(),
            table == entries.deep_view(),
            forall|j: int| 0 <= j < i ==> table[j].key != key,
        decreases entries.len() - i,
    {
        if entries[i].key == key {
            proof {
                lemma_first_with_key_skips(table, key, i as int);
            }
            return Some(&entries[i]);
        }
        i = i + 1;
    }
    proof {
        lemma_first_with_key_skips(table, key, table.len() as int);
    }
    None
}

impl PhonemeDatabase {
    #[verifier::type_invariant]
    spec fn holds_the_table(self) -> bool {
        &&& self.vowels.deep_view() == vowel_table()
        &&& self.consonants.deep_view() == consonant_table()
    }

    /// The vowels that the table holds.
    pub closed spec fn vowels(&self) -> Seq<PhonemeView> {
        self.vowels.deep_view()
    }

    /// The consonants that the table holds.
    pub closed spec fn consonants(&self) -> Seq<PhonemeView> {
        self.consonants.deep_view()
    }

    /// Builds the reference table: eight vowels and twenty consonants.
    pub fn new() -> (db: Self)
        ensures
            db.vowels() == vowel_table(),
            db.consonants() == consonant_table(),
    {
        let v = PhonemeCategory::Vowel;
        let c = PhonemeCategory::Consonant;
        let vowels = vec![
            entry("a", "a", "日本語「あ」", 'a', v),
            entry("i", "i", "日本語「い」", 'i', v),
            entry("u", "u", "日本語「う」", 'u', v),
            entry("e", "e", "日本語「え」", 'e', v),
            entry("o", "o", "日本語「お」", 'o', v),
            entry("ə", "@", "曖昧母音 (about)", '@', v),
            entry("ɑ", "A", "後舌開母音 (father)", 'A', v),
            entry("ɔ", "O", "後舌半開円唇母音 (thought)", 'O', v),
        ];
        let consonants = vec![
            entry("p", "p", "無声両唇破裂音「ぱ」", 'p', c),
            entry("b", "b", "有声両唇破裂音「ば」", 'b', c),
            entry("t", "t", "無声歯茎破裂音「た」", 't', c),
            entry("d", "d", "有声歯茎破裂音「だ」", 'd', c),
            entry("k", "k", "無声軟口蓋破裂音「か」", 'k', c),
            entry("g", "g", "有声軟口蓋破裂音「が」", 'g', c),
            entry("m", "m", "両唇鼻音「ま」", 'm', c),
            entry("n", "n", "歯茎鼻音「な」", 'n', c),
            entry("ŋ", "N", "軟口蓋鼻音 (sing)", 'N', c),
            entry("s", "s", "無声歯茎摩擦音「さ」", 's', c),
            entry("z", "z", "有声歯茎摩擦音「ざ」", 'z', c),
            entry("ʃ", "S", "無声後部歯茎摩擦音「しゃ」", 'S', c),
            entry("ʒ", "Z", "有声後部歯茎摩擦音 (vision)", 'Z', c),
            entry("h", "h", "無声声門摩擦音「は」", 'h', c),
            entry("f", "f", "無声唇歯摩擦音 (fan)", 'f', c),
            entry("v", "v", "有声唇歯摩擦音 (van)", 'v', c),
            entry("l", "l", "歯茎側音 (light)", 'l', c),
            entry("r", "r", "歯茎ふるえ音 (巻き舌)", 'r', c),
            entry("w", "w", "有声両唇軟口蓋接近音「わ」", 'w', c),
            entry("j", "j", "有声硬口蓋接近音「や」", 'y', c),
        ];
        assert(vowels.deep_view() =~= vowel_table());
        assert(consonants.deep_view() =~= consonant_table());
        Self { vowels, consonants }
    }

    /// The unit that `key` selects: the first of the table, vowels before
    /// consonants, that is bound to it.
    pub fn get_by_key(&self, key: char) -> (found: Option<&Phoneme>)
        ensures
            match found {
                Some(p) => lookup(key) == Some(p@),
                None => lookup(key) is None,
            },
    {
        proof {
            use_type_invariant(self);
            lemma_first_with_key_concat(vowel_table(), consonant_table(), key);
        }
        match find_by_key(&self.vowels, key) {
            Some(p) => Some(p),
            None => find_by_key(&self.consonants, key),
        }
    }

    /// The vowels, in display order.
    pub fn get_vowels(&self) -> (vowels: &[Phoneme])
        ensures
            vowels.deep_view() == vowel_table(),
            vowels.deep_view() == self.vowels(),
    {
        proof {
            use_type_invariant(self);
        }
        let vowels = self.vowels.as_slice();
        vowels
    }

    /// The consonants, in display order.
    pub fn get_consonants(&self) -> (consonants: &[Phoneme])
        ensures
            consonants.deep_view() == consonant_table(),
            consonants.deep_view() == self.consonants(),
    {
        proof {
            use_type_invariant(self);
        }
        let consonants = self.consonants.as_slice();
        consonants
    }
}

impl Default for PhonemeDatabase {
    fn default() -> (db: Self)
        ensures
            db.vowels() == vowel_table(),
            db.consonants() == consonant_table(),
    {
        Self::new()
    }
}

} // verus!
