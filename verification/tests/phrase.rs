use scypher::bip39::phrase::{format_phrase, parse_phrase, split_words};
use scypher::bip39::validation::validate_seed_phrase_complete;
use scypher::crypto::transform::{transform, transform_seed};
use scypher::SCypherError;

const ZERO_12: &str =
    "abandon abandon abandon abandon abandon abandon abandon abandon abandon abandon abandon about";

fn strings(words: &[&str]) -> Vec<String> {
    words.iter().map(|w| String::from(*w)).collect()
}

#[test]
fn split_words_at_white_space() {
    assert_eq!(split_words("one two  three"), strings(&["one", "two", "three"]));
    assert_eq!(split_words("  lead and trail \n"), strings(&["lead", "and", "trail"]));
    assert_eq!(split_words("tab\tline\nreturn\r\nend"), strings(&["tab", "line", "return", "end"]));
    assert_eq!(split_words("single"), strings(&["single"]));
    assert_eq!(split_words(""), Vec::<String>::new());
    assert_eq!(split_words(" \t\r\n "), Vec::<String>::new());
    assert_eq!(split_words("año ✓"), strings(&["año", "✓"]));
}

#[test]
fn parse_phrase_refuses_a_text_without_words() {
    assert_eq!(parse_phrase(""), Err(SCypherError::InvalidSeedPhrase));
    assert_eq!(parse_phrase("   \n"), Err(SCypherError::InvalidSeedPhrase));
    assert_eq!(parse_phrase(" legal  winner "), Ok(strings(&["legal", "winner"])));
}

#[test]
fn format_phrase_puts_one_space_between_words() {
    assert_eq!(format_phrase(&strings(&["legal", "winner", "thank"])), "legal winner thank");
    assert_eq!(format_phrase(&strings(&["zoo"])), "zoo");
    assert_eq!(format_phrase(&[]), "");
}

#[test]
fn parse_inverts_format() {
    let words = strings(&["letter", "advice", "cage", "absurd"]);
    assert_eq!(parse_phrase(&format_phrase(&words)), Ok(words));
}

#[test]
fn validate_seed_phrase_complete_reports_each_fault() {
    assert_eq!(validate_seed_phrase_complete(ZERO_12), Ok(()));
    assert_eq!(validate_seed_phrase_complete("  abandon abandon abandon abandon abandon abandon\nabandon abandon abandon abandon abandon about\n"), Ok(()));
    assert_eq!(validate_seed_phrase_complete(""), Err(SCypherError::InvalidSeedPhrase));
    assert_eq!(validate_seed_phrase_complete(" \t "), Err(SCypherError::InvalidSeedPhrase));
    assert_eq!(validate_seed_phrase_complete("abandon about"), Err(SCypherError::InvalidWordCount(2)));
    assert_eq!(
        validate_seed_phrase_complete(&ZERO_12.replace("about", "abandon")),
        Err(SCypherError::InvalidChecksum)
    );
    assert_eq!(
        validate_seed_phrase_complete(&ZERO_12.replace("about", "abouts")),
        Err(SCypherError::InvalidBip39Word(String::from("abouts")))
    );
}

#[test]
fn transform_seed_works_on_text() {
    let hidden = transform_seed(ZERO_12, "pässword", 1, 8192).unwrap();
    let words = parse_phrase(ZERO_12).unwrap();
    let expected = transform(&words, "pässword".as_bytes(), 1, 8192).unwrap();
    assert_eq!(hidden, format_phrase(&expected));
    assert_eq!(validate_seed_phrase_complete(&hidden), Ok(()));
    assert_eq!(transform_seed(&hidden, "pässword", 1, 8192), Ok(String::from(ZERO_12)));
    assert_eq!(transform_seed("", "pw", 1, 8192), Err(SCypherError::InvalidSeedPhrase));
    assert_eq!(transform_seed("abandon", "pw", 1, 8192), Err(SCypherError::InvalidWordCount(1)));
    assert_eq!(transform_seed(ZERO_12, "pw", 0, 8192), Err(SCypherError::KeyDerivationFailed));
}
