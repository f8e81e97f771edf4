use cracked::challenge::Challenge;
use cracked::score::{is_score, Score};
use cracked::search::{Arch, Language, Platform};

fn sample(name: &str, url: &str) -> Challenge {
    Challenge {
        language: Language::Rust,
        author: "someone".to_string(),
        name: name.to_string(),
        url: url.to_string(),
        arch: Arch::X8664,
        difficulty: Score::parse("2.0").unwrap(),
        quality: Score::parse("4.5").unwrap(),
        platform: Platform::Unix,
    }
}

#[test]
fn download_address_is_under_static() {
    let challenge = sample("Foo", "/crackme/5ab77f5633c5d40ad448c2f2");
    assert_eq!(
        challenge.get_download_url(),
        "https://crackmes.one/static/crackme/5ab77f5633c5d40ad448c2f2.zip"
    );
}

#[test]
fn download_address_keeps_the_fragment_as_it_is() {
    assert_eq!(sample("Foo", "/foo123").get_download_url(), "https://crackmes.one/static/foo123.zip");
    assert_eq!(sample("Foo", "").get_download_url(), "https://crackmes.one/static.zip");
}

#[test]
fn artifact_file_is_named_after_the_challenge() {
    assert_eq!(sample("Foo", "/foo123").file_name(), "Foo.zip");
    assert_eq!(sample("my crackme v2", "/x").file_name(), "my crackme v2.zip");
}

#[test]
fn plain_numbers_are_scores() {
    for text in ["0", "7", "3.5", "4.0", "10", "007", "1.", ".5", "0.000", "123456789012345678901234567890"] {
        assert!(is_score(text), "{}", text);
        assert!(text.parse::<f32>().is_ok(), "{}", text);
    }
}

#[test]
fn signed_and_scaled_numbers_are_scores() {
    for text in ["+1", "-1", "-0.5", "+.5", "1e3", "1E3", "1e+3", "1e-3", "1.5e10", "2.e2", ".5e1", "-1.25E-2"] {
        assert!(is_score(text), "{}", text);
        assert!(text.parse::<f32>().is_ok(), "{}", text);
    }
}

#[test]
fn names_of_special_values_are_no_scores() {
    for text in [
        "inf", "INF", "Inf", "infinity", "Infinity", "INFINITY", "nan", "NaN", "NAN", "-inf",
        "+infinity", "-nan", "+NaN", "iNfInItY",
    ] {
        assert!(!is_score(text), "{}", text);
        assert_eq!(Score::parse(text), None, "{}", text);
    }
}

#[test]
fn other_texts_are_no_scores() {
    for text in [
        "", " ", "n/a", "abc", "+", "-", ".", "+.", "e5", ".e5", "1e", "1e+", "1e-", "1e5.0", "1.2.3",
        "1..2", "--1", "+-1", "1+", " 1", "1 ", "1,5", "3.5f", "0x10", "1_000", "in", "infinit",
        "infinityy", "na", "nann", "inf1", "1inf", "i", "\u{663}", "1\u{a0}", "٣.٥",
    ] {
        assert!(!is_score(text), "{:?}", text);
        assert!(text.parse::<f32>().is_err(), "{:?}", text);
        assert_eq!(Score::parse(text), None, "{:?}", text);
    }
}

#[test]
fn score_keeps_its_text() {
    assert_eq!(Score::parse("3.5").unwrap().as_str(), "3.5");
    assert_eq!(Score::parse("-1e3").unwrap().as_str(), "-1e3");
    assert_eq!(Score::parse("3.5").unwrap().clone().as_str(), "3.5");
    assert_eq!(Score::parse("n/a"), None);
    assert_eq!(Score::parse(""), None);
    assert_eq!(Score::parse(" 3.5"), None);
}

#[test]
fn score_converts_to_its_number() {
    assert_eq!(Score::parse("3.5").unwrap().as_str().parse::<f32>(), Ok(3.5));
    assert_eq!(Score::parse("4.0").unwrap().as_str().parse::<f32>(), Ok(4.0));
    assert_eq!(Score::parse("1e2").unwrap().as_str().parse::<f64>(), Ok(100.0));
}
