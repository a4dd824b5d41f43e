use romanize::RomanizeError;
use romanize::Token;
use romanize::build_replacement;
use romanize::encode_macrons;
use romanize::nfkc_normalize;
use romanize::reconstruct;
use romanize::transliterable;
use romanize::uppercase_first_character;

/// A token as the tagger would report it: the surface text and the feature
/// strings (index 0 the part-of-speech, index 8 the pronunciation).
fn tok(surface: &str, features: &[&str]) -> Token {
    Token {
        surface: surface.to_string(),
        features: features.iter().map(|f| f.to_string()).collect(),
    }
}

/// An ipadic-style entry for a word with a pronunciation feature.
fn word(surface: &str, pos: &str, base: &str, reading: &str, pron: &str) -> Token {
    tok(surface, &[pos, "*", "*", "*", "*", "*", base, reading, pron])
}

/// An ipadic-style entry for an unknown word: seven features, no reading.
fn unknown(surface: &str) -> Token {
    tok(surface, &["名詞", "固有名詞", "組織", "*", "*", "*", "*"])
}

/// An ipadic-style entry for a symbol/punctuation token.
fn symbol(surface: &str) -> Token {
    tok(surface, &["記号", "一般", "*", "*", "*", "*", surface])
}

#[test]
fn romanize() {
    let tokens = vec![
        word("太陽", "名詞", "太陽", "タイヨウ", "タイヨー"),
        word("の", "助詞", "の", "ノ", "ノ"),
        unknown("Kiss"),
    ];
    assert_eq!(reconstruct("太陽のKiss", &tokens).unwrap(), "Taiyō no Kiss");

    let tokens = vec![unknown("エブリデイワールド")];
    assert_eq!(
        reconstruct("エブリデイワールド", &tokens).unwrap(),
        "Eburideiwārudo"
    );

    let tokens = vec![
        unknown("U"),
        symbol("&"),
        unknown("I"),
        symbol("～"),
        word("夕日", "名詞", "夕日", "ユウヒ", "ユーヒ"),
        word("の", "助詞", "の", "ノ", "ノ"),
        word("綺麗", "名詞", "綺麗", "キレイ", "キレイ"),
        word("な", "助動詞", "だ", "ナ", "ナ"),
        word("あの", "連体詞", "あの", "アノ", "アノ"),
        word("丘", "名詞", "丘", "オカ", "オカ"),
        word("で", "助詞", "で", "デ", "デ"),
        symbol("～"),
        unknown("U"),
        symbol("&"),
        unknown("I"),
    ];
    assert_eq!(
        reconstruct("U&I ～夕日の綺麗なあの丘で～ U&I", &tokens).unwrap(),
        "U&I ~Yūhi no Kirei na ano Oka de~ U&I",
    );

    let tokens = vec![
        word("ふ", "助動詞", "ふ", "フ", "フ"),
        word("で", "助詞", "で", "デ", "デ"),
        word("ペン", "名詞", "ペン", "ペン", "ペン"),
        symbol("～"),
        word("ボールペン", "名詞", "ボールペン", "ボールペン", "ボールペン"),
        symbol("～"),
        symbol("["),
        unknown("GAME"),
        unknown("Mix"),
        symbol("]"),
    ];
    assert_eq!(
        reconstruct("ふでペン ～ボールペン～ [GAME Mix]", &tokens).unwrap(),
        "fu de Pen ~Bōrupen~ [GAME Mix]",
    );

    let tokens = vec![
        word("空", "名詞", "空", "ソラ", "ソラ"),
        word("の", "助詞", "の", "ノ", "ノ"),
        word("境界", "名詞", "境界", "キョウカイ", "キョーカイ"),
        symbol("「"),
        word("殺人", "名詞", "殺人", "サツジン", "サツジン"),
        word("考察", "名詞", "考察", "コウサツ", "コーサツ"),
        symbol("（"),
        word("後", "名詞", "後", "ゴ", "ゴ"),
        symbol("）"),
        symbol("」"),
        unknown("Original"),
        unknown("Soundtrack"),
    ];
    assert_eq!(
        reconstruct("空の境界 「殺人考察（後）」Original Soundtrack", &tokens).unwrap(),
        "Sora no Kyōkai 「Satsujin Kōsatsu(Go)」Original Soundtrack",
    );
}

#[test]
fn punctuation_is_preserved() {
    // A punctuation token leaves the buffer untouched: no transliteration, no
    // space on either side of it.
    let tokens = vec![
        word("犬", "名詞", "犬", "イヌ", "イヌ"),
        symbol("。"),
        word("猫", "名詞", "猫", "ネコ", "ネコ"),
    ];
    assert_eq!(reconstruct("犬。猫", &tokens).unwrap(), "Inu。Neko");
}

#[test]
fn phonetic_token_rewrites_only_the_first_occurrence() {
    // The surface ペン occurs twice; each phonetic token rewrites exactly one
    // occurrence, the first one still present.
    let tokens = vec![
        word("ペン", "名詞", "ペン", "ペン", "ペン"),
        word("と", "助詞", "と", "ト", "ト"),
        word("ペン", "名詞", "ペン", "ペン", "ペン"),
    ];
    assert_eq!(reconstruct("ペンとペン", &tokens).unwrap(), "Pen to Pen");
}

#[test]
fn noun_capitalization_only_for_nouns() {
    // 犬 is a noun, its rendering starts uppercase; the particle と does not.
    let tokens = vec![
        word("犬", "名詞", "犬", "イヌ", "イヌ"),
        word("と", "助詞", "と", "ト", "ト"),
        word("歩く", "動詞", "歩く", "アルク", "アルク"),
    ];
    assert_eq!(reconstruct("犬と歩く", &tokens).unwrap(), "Inu to aruku");
}

#[test]
fn macron_for_length_marker() {
    // Every hyphen the transliterator emits becomes a macron on the vowel.
    let tokens = vec![unknown("スーパー")];
    assert_eq!(reconstruct("スーパー", &tokens).unwrap(), "Sūpā");
}

#[test]
fn no_space_before_non_alphanumeric_opaque_token() {
    // An opaque token that starts with a bracket gets no space even right
    // after a word, and an opaque token clears the pending space itself.
    let tokens = vec![
        word("あ", "感動詞", "あ", "ア", "ア"),
        tok("[", &["名詞", "サ変接続", "*", "*", "*", "*", "*"]),
        unknown("x"),
    ];
    assert_eq!(reconstruct("あ[x", &tokens).unwrap(), "a[x");
}

#[test]
fn space_before_alphanumeric_opaque_token() {
    let tokens = vec![word("あ", "感動詞", "あ", "ア", "ア"), unknown("x")];
    assert_eq!(reconstruct("あx", &tokens).unwrap(), "a x");
}

#[test]
fn cursor_bounds_opaque_space_insertion() {
    // The first A already sits at position zero; the space for the second A
    // is inserted at its own occurrence, found from the cursor, not at the
    // first one.
    let tokens = vec![
        unknown("A"),
        word("と", "助詞", "と", "ト", "ト"),
        unknown("A"),
    ];
    assert_eq!(reconstruct("AとA", &tokens).unwrap(), "Ato A");
}

#[test]
fn empty_token_list_normalizes_only() {
    let tokens: Vec<Token> = vec![];
    assert_eq!(reconstruct("ＡＢＣ", &tokens).unwrap(), "ABC");
}

#[test]
fn missing_features_is_an_error() {
    let tokens = vec![Token {
        surface: "犬".to_string(),
        features: Vec::new(),
    }];
    assert_eq!(
        reconstruct("犬", &tokens),
        Err(RomanizeError::MissingFeatures)
    );
}

#[test]
fn absent_surface_is_an_error() {
    let tokens = vec![word("猫", "名詞", "猫", "ネコ", "ネコ")];
    assert_eq!(
        reconstruct("犬", &tokens),
        Err(RomanizeError::SurfaceNotFound)
    );
}

#[test]
fn uppercase_first_character_works() {
    assert_eq!(uppercase_first_character("taiyo"), "Taiyo");
    assert_eq!(uppercase_first_character("a"), "A");
    assert_eq!(uppercase_first_character(""), "");
    assert_eq!(uppercase_first_character("Already"), "Already");
    assert_eq!(uppercase_first_character("1up"), "1up");
}

#[test]
fn encode_macrons_replaces_every_hyphen() {
    assert_eq!(encode_macrons("taiyo-"), "taiyo\u{0304}");
    assert_eq!(encode_macrons("su-pa-"), "su\u{0304}pa\u{0304}");
    assert_eq!(encode_macrons("no hyphen"), "no hyphen");
    assert_eq!(encode_macrons(""), "");
    assert!(!encode_macrons("a-b-c-").contains('-'));
}

#[test]
fn normalization_is_idempotent() {
    for s in ["Taiyo\u{0304} no Kiss", "ＡＢＣ～（後）", "plain ascii", ""] {
        let once = nfkc_normalize(s);
        let twice = nfkc_normalize(&once);
        assert_eq!(once, twice);
    }
}

#[test]
fn normalization_composes_macron() {
    assert_eq!(nfkc_normalize("o\u{0304}"), "ō");
    assert_eq!(nfkc_normalize("（後）"), "(後)");
}

#[test]
fn replacement_text_for_one_token() {
    let noun = word("太陽", "名詞", "太陽", "タイヨウ", "タイヨー");
    assert_eq!(build_replacement(&noun, "タイヨー", false), "Taiyo\u{0304}");
    assert_eq!(build_replacement(&noun, "タイヨー", true), " Taiyo\u{0304}");
    let particle = word("の", "助詞", "の", "ノ", "ノ");
    assert_eq!(build_replacement(&particle, "ノ", true), " no");
}

#[test]
fn transliterable_excludes_the_panicking_inputs() {
    assert!(transliterable("タイヨー"));
    assert!(transliterable("ボールペン"));
    assert!(transliterable("ッ"));
    assert!(transliterable("キット"));
    assert!(!transliterable("ッッ"));
    assert!(!transliterable("ッアッ"));
    assert!(!transliterable("ヷー"));
    assert!(!transliterable("ヺ"));
    assert!(transliterable(""));
}

#[test]
fn uppercase_first_character_is_idempotent() {
    for s in ["taiyo", "Already", "1up", "", "ß-case", "んa"] {
        let once = uppercase_first_character(s);
        assert_eq!(uppercase_first_character(&once), once);
    }
}
