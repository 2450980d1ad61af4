use token_burner::utils::format_transaction_signature;

#[test]
fn a_long_signature_is_cut_to_six_dots_six() {
    assert_eq!(format_transaction_signature("Ab12Cd34Ef56Gh78"), "Ab12Cd...56Gh78");
    assert_eq!(
        format_transaction_signature("5VERv8NMvzbJMEkV8xnrLkEaWRtSz9CosKDYjCJjBRnbJLgp8uirBgmQpjKhoR4tjF3ZpRzrFmBV6UjKdiSZkQUW"),
        "5VERv8...SZkQUW"
    );
}

#[test]
fn a_signature_of_twelve_characters_is_both_halves() {
    assert_eq!(format_transaction_signature("abcdefghijkl"), "abcdef...ghijkl");
}

#[test]
fn a_signature_of_thirteen_characters_loses_one() {
    assert_eq!(format_transaction_signature("abcdefghijklm"), "abcdef...hijklm");
}

#[test]
fn a_short_signature_stays_as_it_is() {
    assert_eq!(format_transaction_signature(""), "");
    assert_eq!(format_transaction_signature("abc"), "abc");
    assert_eq!(format_transaction_signature("abcdef"), "abcdef");
    assert_eq!(format_transaction_signature("abcdefghijk"), "abcdefghijk");
}

#[test]
fn a_signature_is_cut_by_characters_not_bytes() {
    assert_eq!(format_transaction_signature("äöüäöüxyzäöüäöü"), "äöüäöü...äöüäöü");
    assert_eq!(format_transaction_signature("äöüäöüäöüäö"), "äöüäöüäöüäö");
}
