use pwd_strength::evaluation::PasswordEvaluation;
use pwd_strength::profile::PasswordProfile;
use pwd_strength::score::{score_password, score_profile};
use pwd_strength::text::{chars_of, text_is_blank};
use pwd_strength::{PasswordScore, PasswordStrength};

#[test]
fn test_score_new_clamps() {
    assert_eq!(PasswordScore::new(-5).value(), 0);
    assert_eq!(PasswordScore::new(i64::MIN).value(), 0);
    assert_eq!(PasswordScore::new(0).value(), 0);
    assert_eq!(PasswordScore::new(42).value(), 42);
    assert_eq!(PasswordScore::new(100).value(), 100);
    assert_eq!(PasswordScore::new(101).value(), 100);
    assert_eq!(PasswordScore::new(i64::MAX).value(), 100);
}

#[test]
fn test_strength_thresholds() {
    let cases = [
        (0, PasswordStrength::WEAK),
        (49, PasswordStrength::WEAK),
        (50, PasswordStrength::MEDIUM),
        (69, PasswordStrength::MEDIUM),
        (70, PasswordStrength::STRONG),
        (84, PasswordStrength::STRONG),
        (85, PasswordStrength::EPIC),
        (94, PasswordStrength::EPIC),
        (95, PasswordStrength::GOD),
        (100, PasswordStrength::GOD),
    ];
    for (raw, strength) in cases {
        assert_eq!(PasswordScore::new(raw).strength(), strength, "tier of {}", raw);
    }
}

#[test]
fn test_evaluation_strength() {
    let scored = PasswordEvaluation { score: Some(PasswordScore::new(72)), reasons: vec![] };
    assert_eq!(scored.strength(), PasswordStrength::STRONG);
    let unscored =
        PasswordEvaluation { score: None, reasons: vec!["Evaluation cancelled".to_string()] };
    assert_eq!(unscored.strength(), PasswordStrength::NotEvaluated);
    assert_ne!(unscored.strength(), PasswordStrength::WEAK);
}

#[test]
fn test_profile_measures() {
    let profile = PasswordProfile::of("VeryStrongPassword123!@#");
    assert_eq!(
        profile,
        PasswordProfile {
            length: 24,
            has_upper: true,
            has_lower: true,
            has_digit: true,
            has_special: true,
            special_count: 3,
            distinct: 20,
        }
    );
    let profile = PasswordProfile::of("");
    assert_eq!(
        profile,
        PasswordProfile {
            length: 0,
            has_upper: false,
            has_lower: false,
            has_digit: false,
            has_special: false,
            special_count: 0,
            distinct: 0,
        }
    );
    let profile = PasswordProfile::of("aaaa  ");
    assert_eq!(profile.length, 6);
    assert_eq!(profile.special_count, 2);
    assert_eq!(profile.distinct, 2);
    assert!(profile.has_lower && profile.has_special);
    assert!(!profile.has_upper && !profile.has_digit);
}

#[test]
fn test_profile_counts_characters_not_bytes() {
    let profile = PasswordProfile::of("ÄÄöö€€");
    assert_eq!(profile.length, 6);
    assert_eq!(profile.distinct, 3);
    assert_eq!(profile.special_count, 2);
    assert!(profile.has_upper && profile.has_lower && profile.has_special);
    assert!(!profile.has_digit);
}

fn profile(length: usize, classes: usize, special_count: usize, distinct: usize) -> PasswordProfile {
    PasswordProfile {
        length,
        has_upper: classes >= 1,
        has_lower: classes >= 2,
        has_digit: classes >= 3,
        has_special: classes >= 4,
        special_count,
        distinct,
    }
}

#[test]
fn test_score_length_bonus() {
    // Half a point for each character, rounded down, at most 20.
    assert_eq!(score_profile(&profile(0, 0, 0, 0), 0).value(), 0);
    assert_eq!(score_profile(&profile(1, 0, 0, 0), 0).value(), 0);
    assert_eq!(score_profile(&profile(2, 0, 0, 0), 0).value(), 1);
    assert_eq!(score_profile(&profile(9, 0, 0, 0), 0).value(), 4);
    assert_eq!(score_profile(&profile(12, 0, 0, 0), 0).value(), 6);
    // From 13 characters on 5 more, from 17 on 10 more.
    assert_eq!(score_profile(&profile(13, 0, 0, 0), 0).value(), 11);
    assert_eq!(score_profile(&profile(16, 0, 0, 0), 0).value(), 13);
    assert_eq!(score_profile(&profile(17, 0, 0, 0), 0).value(), 18);
    assert_eq!(score_profile(&profile(40, 0, 0, 0), 0).value(), 30);
    assert_eq!(score_profile(&profile(41, 0, 0, 0), 0).value(), 30);
    assert_eq!(score_profile(&profile(usize::MAX, 0, 0, 0), 0).value(), 30);
}

#[test]
fn test_score_variety_bonus() {
    assert_eq!(score_profile(&profile(0, 1, 0, 0), 0).value(), 15);
    assert_eq!(score_profile(&profile(0, 2, 0, 0), 0).value(), 30);
    assert_eq!(score_profile(&profile(0, 3, 0, 0), 0).value(), 45);
    assert_eq!(score_profile(&profile(0, 4, 0, 0), 0).value(), 60);
}

#[test]
fn test_score_special_and_uniqueness_bonus() {
    assert_eq!(score_profile(&profile(0, 0, 1, 0), 0).value(), 0);
    assert_eq!(score_profile(&profile(0, 0, 2, 0), 0).value(), 5);
    assert_eq!(score_profile(&profile(0, 0, usize::MAX, 0), 0).value(), 5);
    assert_eq!(score_profile(&profile(0, 0, 0, 11), 0).value(), 0);
    assert_eq!(score_profile(&profile(0, 0, 0, 12), 0).value(), 5);
    assert_eq!(score_profile(&profile(0, 0, 0, 15), 0).value(), 5);
    assert_eq!(score_profile(&profile(0, 0, 0, 16), 0).value(), 10);
    assert_eq!(score_profile(&profile(0, 0, 0, usize::MAX), 0).value(), 10);
}

#[test]
fn test_score_penalty_and_clamp() {
    // All bonuses come to 105, which is cut to 100.
    assert_eq!(score_profile(&profile(40, 4, 2, 16), 0).value(), 100);
    assert_eq!(score_profile(&profile(40, 4, 2, 16), 1).value(), 95);
    assert_eq!(score_profile(&profile(40, 4, 2, 16), 4).value(), 65);
    assert_eq!(score_profile(&profile(40, 4, 2, 16), 10).value(), 5);
    assert_eq!(score_profile(&profile(40, 4, 2, 16), 11).value(), 0);
    assert_eq!(score_profile(&profile(40, 4, 2, 16), usize::MAX).value(), 0);
    assert_eq!(score_profile(&profile(10, 1, 0, 5), 3).value(), 0);
}

#[test]
fn test_score_password_counts_reasons() {
    let none: Vec<String> = vec![];
    let two = vec!["one".to_string(), "two".to_string()];
    assert_eq!(score_password("MyPass123!", &none).value(), 65);
    assert_eq!(score_password("MyPass123!", &two).value(), 45);
    assert_eq!(score_password("", &none).value(), 0);
    assert_eq!(score_password("", &two).value(), 0);
}

#[test]
fn test_score_bounds_on_many_inputs() {
    let mut long = String::new();
    for code in 0x21u32..0x7f {
        long.push(char::from_u32(code).unwrap());
    }
    assert!(long.chars().count() >= 64);
    let none: Vec<String> = vec![];
    let many: Vec<String> = (0..50).map(|i| format!("reason {}", i)).collect();
    for text in ["", "a", "Aa1!", "password", long.as_str()] {
        assert!(score_password(text, &none).value() <= 100);
        assert!(score_password(text, &many).value() <= 100);
    }
    assert_eq!(score_password(long.as_str(), &none).value(), 100);
    assert_eq!(score_password(long.as_str(), &many).value(), 0);
}

#[test]
fn test_text_helpers() {
    assert_eq!(chars_of("añ€"), vec!['a', 'ñ', '€']);
    assert_eq!(chars_of(""), Vec::<char>::new());
    assert!(text_is_blank(""));
    assert!(text_is_blank(" \n\t\u{2003}"));
    assert!(!text_is_blank(" x "));
}
