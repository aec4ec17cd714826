use harmonic::error::HarmonicError;
use harmonic::guard::{
    any_contains_nul, contains_nul, ensure_root, random_trailer, runs_from_install_location,
    temp_executable_name, trailer_from, INSTALL_LOCATION, TRAILER_LEN,
};

const CHARSET: &str = "ABCDEFGHIJKLMNOPQRSTUVWXYZabcdefghijklmnopqrstuvwxyz0123456789";

#[test]
fn install_location_is_fixed() {
    assert_eq!(INSTALL_LOCATION, "/nix/nix-installer");
    assert_eq!(TRAILER_LEN, 16);
}

#[test]
fn trailer_from_spells_positions_of_the_charset() {
    assert_eq!(trailer_from(&vec![0, 25, 26, 51, 52, 61]), Some("AZaz09".to_string()));
    assert_eq!(trailer_from(&vec![7, 30, 37, 37, 40]), Some("Hello".to_string()));
    assert_eq!(trailer_from(&vec![]), Some(String::new()));
}

#[test]
fn trailer_from_covers_the_whole_charset() {
    let all: Vec<usize> = (0..62).collect();
    assert_eq!(trailer_from(&all), Some(CHARSET.to_string()));
}

#[test]
fn trailer_from_refuses_positions_outside_the_charset() {
    assert_eq!(trailer_from(&vec![62]), None);
    assert_eq!(trailer_from(&vec![0, 1, usize::MAX]), None);
    assert_eq!(trailer_from(&vec![100, 0]), None);
}

#[test]
fn random_trailer_has_sixteen_characters_of_the_charset() {
    for _ in 0..200 {
        let trailer = random_trailer();
        assert_eq!(trailer.chars().count(), 16);
        assert!(trailer.chars().all(|c| CHARSET.contains(c)));
    }
}

#[test]
fn random_trailers_differ() {
    let drawn: Vec<String> = (0..20).map(|_| random_trailer()).collect();
    assert!(drawn.iter().any(|t| t != &drawn[0]));
}

#[test]
fn temp_name_ends_in_the_trailer() {
    assert_eq!(temp_executable_name("AbCdEfGhIjKlMnOp"), "nix-installer-AbCdEfGhIjKlMnOp");
    assert_eq!(temp_executable_name(""), "nix-installer-");
}

#[test]
fn contains_nul_finds_a_zero_byte() {
    assert!(contains_nul("\0"));
    assert!(contains_nul("abc\0"));
    assert!(contains_nul("\0abc"));
    assert!(contains_nul("ab\0cd"));
}

#[test]
fn contains_nul_passes_text_without_one() {
    assert!(!contains_nul(""));
    assert!(!contains_nul("uninstall"));
    assert!(!contains_nul("/tmp/nix-installer-0000000000000000"));
    assert!(!contains_nul("naïve ✓ 0"));
}

#[test]
fn any_contains_nul_looks_at_every_string() {
    assert!(!any_contains_nul(&vec![]));
    assert!(!any_contains_nul(&vec!["nix-installer".to_string(), "uninstall".to_string()]));
    assert!(any_contains_nul(&vec!["nix-installer".to_string(), "un\0install".to_string()]));
    assert!(any_contains_nul(&vec!["\0".to_string(), "uninstall".to_string()]));
}

#[test]
fn root_may_go_on() {
    assert_eq!(ensure_root(true), Ok(()));
}

#[test]
fn anyone_else_is_turned_down() {
    let error = ensure_root(false).unwrap_err();
    assert_eq!(error, HarmonicError::RootRequired);
    assert!(error.is_expected());
}

#[test]
fn the_install_location_is_told_apart() {
    assert!(runs_from_install_location(&Some("/nix/nix-installer".to_string())));
    assert!(!runs_from_install_location(&Some("/nix/nix-installer2".to_string())));
    assert!(!runs_from_install_location(&Some("/usr/bin/nix-installer".to_string())));
    assert!(!runs_from_install_location(&Some(String::new())));
    assert!(!runs_from_install_location(&None));
}
