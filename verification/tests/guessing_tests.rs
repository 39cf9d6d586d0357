use capstone_project::guessing::{compare_guess, read_guess, secret_number, GuessOutcome};
use capstone_project::modules::utils::{validate_account_ownership, AccountError};
use capstone_project::pubkey::{Pubkey, copy_keys, key_seed};

#[test]
fn secret_is_between_one_and_hundred() {
    let mut seen = std::collections::BTreeSet::new();
    for _ in 0..200 {
        let secret = secret_number();
        assert!((1..=100).contains(&secret));
        seen.insert(secret);
    }
    assert!(seen.len() > 1);
}

#[test]
fn guesses_compare_with_secret() {
    assert_eq!(compare_guess(10, 50), GuessOutcome::TooSmall);
    assert_eq!(compare_guess(70, 50), GuessOutcome::TooBig);
    assert_eq!(compare_guess(50, 50), GuessOutcome::Win);
    assert!(GuessOutcome::Win.ends_game());
    assert!(!GuessOutcome::TooBig.ends_game());
    assert_eq!(GuessOutcome::TooSmall.message(), "Too small!");
    assert_eq!(GuessOutcome::TooBig.message(), "Too big!");
    assert_eq!(GuessOutcome::Win.message(), "You win!");
}

#[test]
fn lines_are_read_as_numbers() {
    assert_eq!(read_guess("42\n"), Some(42));
    assert_eq!(read_guess("  +7 \t\r\n"), Some(7));
    assert_eq!(read_guess("\u{3000}15\u{a0}"), Some(15));
    assert_eq!(read_guess("4294967295"), Some(u32::MAX));
    assert_eq!(read_guess("4294967296"), None);
    assert_eq!(read_guess("-3"), None);
    assert_eq!(read_guess("+"), None);
    assert_eq!(read_guess(""), None);
    assert_eq!(read_guess("   \n"), None);
    assert_eq!(read_guess("4 2"), None);
    assert_eq!(read_guess("forty"), None);
}

#[test]
fn ownership_is_checked() {
    assert_eq!(validate_account_ownership(&Pubkey([3; 32]), &Pubkey([3; 32])), Ok(()));
    assert_eq!(
        validate_account_ownership(&Pubkey([3; 32]), &Pubkey([4; 32])),
        Err(AccountError::InvalidAccountOwner)
    );
}

#[test]
fn keys_compare_and_copy() {
    let mut bytes = [1u8; 32];
    let a = Pubkey::new_from_array(bytes);
    bytes[31] = 2;
    let b = Pubkey::new_from_array(bytes);
    assert!(a.same_as(&a));
    assert!(!a.same_as(&b));
    assert_eq!(b.to_bytes(), bytes);
    assert_eq!(copy_keys(&vec![a, b]), vec![a, b]);
    assert_eq!(key_seed(&b), bytes.to_vec());
}
