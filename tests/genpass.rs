use rstool::genpass::{charset, password_from_draws, process_genpass, GenPassError};

#[test]
fn charset_follows_the_selected_classes() {
    assert_eq!(charset(false, false, true, false), b"0123456789".to_vec());
    assert_eq!(charset(false, false, false, true), b"!@#$%^&*_".to_vec());
    assert_eq!(charset(true, false, false, false), b"ABCDEFGHIJKLMNOPQRSTUVWXYZ".to_vec());
    assert_eq!(charset(true, true, true, true).len(), 26 + 26 + 10 + 9);
    assert!(charset(false, false, false, false).is_empty());
}

#[test]
fn draws_pick_positions() {
    assert_eq!(password_from_draws(b"abc", &[2, 0, 1, 1]), b"cabb".to_vec());
    assert_eq!(password_from_draws(b"abc", &[]), Vec::<u8>::new());
}

#[test]
fn password_has_the_requested_length_and_classes() {
    let p = process_genpass(16, true, true, true, true).unwrap();
    assert_eq!(p.len(), 16);
    assert!(p.iter().all(|c| c.is_ascii_alphanumeric() || b"!@#$%^&*_".contains(c)));
    let digits = process_genpass(32, false, false, true, false).unwrap();
    assert!(digits.iter().all(|c| c.is_ascii_digit()));
    assert_eq!(process_genpass(0, true, false, false, false), Ok(vec![]));
}

#[test]
fn no_class_selected_is_an_error() {
    assert_eq!(process_genpass(16, false, false, false, false), Err(GenPassError::NoCharacterClass));
}
