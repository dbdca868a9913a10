use shortlink::code::generate;

fn is_symbol(c: char) -> bool {
    ('0'..='9').contains(&c) || ('A'..='Z').contains(&c) || ('a'..='z').contains(&c)
}

#[test]
fn code_has_the_length_asked_for() {
    assert_eq!(generate(8).chars().count(), 8);
    assert_eq!(generate(1).chars().count(), 1);
    assert_eq!(generate(64).chars().count(), 64);
}

#[test]
fn code_of_length_zero_is_empty() {
    assert_eq!(generate(0), "");
}

#[test]
fn code_is_alphanumeric() {
    let mut round: u32 = 0;
    while round < 200 {
        let code = generate(8);
        assert!(code.chars().all(is_symbol), "{}", code);
        assert_eq!(code.len(), 8);
        round += 1;
    }
}

#[test]
fn long_codes_differ() {
    assert_ne!(generate(32), generate(32));
}
