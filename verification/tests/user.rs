use ticket_codec::error::{DecodeError, FieldKind};
use ticket_codec::user::{user, LanguageScore};

fn lang(name: &str, score: f64) -> LanguageScore {
    LanguageScore { name: name.to_string(), value_bits: score.to_bits() }
}

fn sample_user() -> user {
    user {
        user_id: 314,
        preferred_language: lang("en", 0.25),
        spoken_languages: vec![lang("en", 0.25), lang("fr", 0.93)],
        email: "someone@example.com".to_string(),
    }
}

#[test]
fn user_round_trips_with_scores_and_order() {
    let u = sample_user();
    let back = user::decode(&u.encode()).unwrap();
    assert_eq!(back, u);
    assert_eq!(f64::from_bits(back.spoken_languages[1].value_bits), 0.93);
    assert_eq!(back.spoken_languages[0].name, "en");
}

#[test]
fn user_preferred_score_is_read_from_its_own_field() {
    // The stored name and score differ, so a decode that read the score
    // from the name field could not yield these values.
    let u = sample_user();
    let doc = u.encode();
    let sub = doc.get_document("preferred_language").unwrap();
    assert_eq!(sub.get_str("name"), Ok("en"));
    assert_eq!(sub.get_f64("value"), Ok(0.25));
    let back = user::decode(&doc).unwrap();
    assert_eq!(back.preferred_language.name, "en");
    assert_eq!(f64::from_bits(back.preferred_language.value_bits), 0.25);
}

#[test]
fn user_with_no_spoken_languages_keeps_an_empty_list() {
    let u = user {
        user_id: 7,
        preferred_language: lang("de", 1.0),
        spoken_languages: vec![],
        email: "a@b.c".to_string(),
    };
    let doc = u.encode();
    // The field is present and holds an empty array, not null and not
    // missing.
    assert_eq!(doc.get_array("spoken_languages"), Ok(&vec![]));
    let back = user::decode(&doc).unwrap();
    assert_eq!(back.spoken_languages, vec![]);
    assert_eq!(back, u);
}

#[test]
fn user_missing_any_field_names_that_field() {
    for field in ["user_id", "preferred_language", "spoken_languages", "email"] {
        let mut doc = sample_user().encode();
        doc.remove(field);
        assert_eq!(
            user::decode(&doc),
            Err(DecodeError::MissingField { field: field.to_string() }),
        );
    }
}

#[test]
fn user_language_without_a_score_names_the_value_field() {
    let mut doc = sample_user().encode();
    let mut sub = doc.get_document("preferred_language").unwrap().clone();
    sub.remove("value");
    doc.insert("preferred_language", sub);
    assert_eq!(
        user::decode(&doc),
        Err(DecodeError::MissingField { field: "value".to_string() }),
    );
}

#[test]
fn user_email_of_another_kind_is_a_type_mismatch() {
    let mut doc = sample_user().encode();
    doc.insert("email", 5_i64);
    assert_eq!(
        user::decode(&doc),
        Err(DecodeError::TypeMismatch {
            field: "email".to_string(),
            expected: FieldKind::Str,
            actual: FieldKind::Int64,
        }),
    );
}

#[test]
fn user_score_bits_survive_even_for_nan() {
    let bits = f64::NAN.to_bits();
    let u = user {
        user_id: 1,
        preferred_language: LanguageScore { name: "xx".to_string(), value_bits: bits },
        spoken_languages: vec![],
        email: "x@y.z".to_string(),
    };
    let back = user::decode(&u.encode()).unwrap();
    assert_eq!(back.preferred_language.value_bits, bits);
}

#[test]
fn user_spoken_language_element_of_another_kind_is_a_type_mismatch() {
    let mut doc = sample_user().encode();
    doc.insert("spoken_languages", vec![bson::Bson::String("en".to_string())]);
    assert_eq!(
        user::decode(&doc),
        Err(DecodeError::TypeMismatch {
            field: "spoken_languages".to_string(),
            expected: FieldKind::Doc,
            actual: FieldKind::Str,
        }),
    );
}
