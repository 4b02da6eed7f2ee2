use tale_ledger::address::Address;
use tale_ledger::token::{TokenHolding, TOKEN_ACCOUNT_LEN};

fn token_account(mint: [u8; 32], owner: [u8; 32], amount: u64, state: u8) -> Vec<u8> {
    let mut data = Vec::new();
    data.extend_from_slice(&mint);
    data.extend_from_slice(&owner);
    data.extend_from_slice(&amount.to_le_bytes());
    data.extend_from_slice(&[0u8; 36]);
    data.push(state);
    data.extend_from_slice(&[0u8; 12]);
    data.extend_from_slice(&[0u8; 8]);
    data.extend_from_slice(&[0u8; 36]);
    data
}

fn is_tag(data: &[u8], at: usize) -> bool {
    (data[at] == 0 || data[at] == 1) && data[at + 1] == 0 && data[at + 2] == 0 && data[at + 3] == 0
}

/// What the library says a reading gives, written out once more.
fn expected(data: &[u8]) -> Option<([u8; 32], [u8; 32], u64)> {
    if data.len() != 165 {
        return None;
    }
    if !is_tag(data, 72) || !is_tag(data, 109) || !is_tag(data, 129) {
        return None;
    }
    if data[108] != 1 && data[108] != 2 {
        return None;
    }
    let mut mint = [0u8; 32];
    mint.copy_from_slice(&data[0..32]);
    let mut owner = [0u8; 32];
    owner.copy_from_slice(&data[32..64]);
    let mut amount: u64 = 0;
    for i in 0..8 {
        amount += (data[64 + i] as u64) << (8 * i);
    }
    Some((mint, owner, amount))
}

fn agrees(data: &[u8]) {
    let read = TokenHolding::read(data).map(|h| (h.mint.to_bytes(), h.owner.to_bytes(), h.amount));
    assert_eq!(read, expected(data));
}

#[test]
fn read_finds_mint_owner_and_amount() {
    let data = token_account([5u8; 32], [6u8; 32], 3, 1);
    assert_eq!(data.len(), TOKEN_ACCOUNT_LEN);
    let holding = TokenHolding::read(&data).unwrap();
    assert_eq!(holding.mint, Address::new([5u8; 32]));
    assert_eq!(holding.owner, Address::new([6u8; 32]));
    assert_eq!(holding.amount, 3);
}

#[test]
fn read_takes_the_amount_low_byte_first() {
    let data = token_account([5u8; 32], [6u8; 32], 0x0102_0304_0506_0708, 2);
    assert_eq!(&data[64..72], &[8, 7, 6, 5, 4, 3, 2, 1]);
    let holding = TokenHolding::read(&data).unwrap();
    assert_eq!(holding.amount, 0x0102_0304_0506_0708);
    for amount in [0, 1, 255, 256, 65_535, 1 << 32, u64::MAX - 1, u64::MAX] {
        let data = token_account([1u8; 32], [2u8; 32], amount, 1);
        assert_eq!(TokenHolding::read(&data).unwrap().amount, amount);
        agrees(&data);
    }
}

#[test]
fn read_refuses_an_uninitialized_account() {
    let data = token_account([5u8; 32], [6u8; 32], 3, 0);
    assert!(TokenHolding::read(&data).is_none());
}

#[test]
fn read_takes_the_states_initialized_and_frozen_only() {
    for state in 0..=255u8 {
        let data = token_account([5u8; 32], [6u8; 32], 3, state);
        assert_eq!(TokenHolding::read(&data).is_some(), state == 1 || state == 2);
        agrees(&data);
    }
}

#[test]
fn read_refuses_data_of_another_length() {
    let mut data = token_account([5u8; 32], [6u8; 32], 3, 1);
    data.push(0);
    assert!(TokenHolding::read(&data).is_none());
    assert!(TokenHolding::read(&[]).is_none());
    assert!(TokenHolding::read(&[1u8; 164]).is_none());
    for len in 0..=200usize {
        let mut data = token_account([5u8; 32], [6u8; 32], 3, 1);
        data.resize(len, 0);
        if len >= 109 {
            data[108] = 1;
        }
        assert_eq!(TokenHolding::read(&data).is_some(), len == 165);
        agrees(&data);
    }
}

#[test]
fn read_checks_the_marks_of_the_optional_fields() {
    for at in [72usize, 109, 129] {
        for offset in 0..4usize {
            for value in [0u8, 1, 2, 255] {
                let mut data = token_account([5u8; 32], [6u8; 32], 3, 1);
                data[at + offset] = value;
                let fine = value == 0 || (value == 1 && offset == 0);
                assert_eq!(TokenHolding::read(&data).is_some(), fine);
                agrees(&data);
            }
        }
    }
    // a present delegate, native reserve and close authority change nothing
    let mut data = token_account([5u8; 32], [6u8; 32], 3, 2);
    data[72] = 1;
    data[109] = 1;
    data[129] = 1;
    for i in 76..108 {
        data[i] = 9;
    }
    for i in 113..129 {
        data[i] = 8;
    }
    for i in 133..165 {
        data[i] = 7;
    }
    let holding = TokenHolding::read(&data).unwrap();
    assert_eq!(holding.mint, Address::new([5u8; 32]));
    assert_eq!(holding.owner, Address::new([6u8; 32]));
    assert_eq!(holding.amount, 3);
}

#[test]
fn read_agrees_with_the_layout_on_many_accounts() {
    let mut seed: u64 = 0x9e37_79b9_7f4a_7c15;
    let mut next = move || {
        seed ^= seed << 13;
        seed ^= seed >> 7;
        seed ^= seed << 17;
        seed
    };
    let mut accepted = 0;
    for round in 0..4000 {
        let mut data = vec![0u8; 165];
        for byte in data.iter_mut() {
            *byte = (next() >> 24) as u8;
        }
        // most rounds mend the marks and the state, so that both outcomes are met
        if round % 4 != 0 {
            for at in [72usize, 109, 129] {
                data[at] = (next() % 2) as u8;
                data[at + 1] = 0;
                data[at + 2] = 0;
                data[at + 3] = if round % 16 == 1 { (next() % 2) as u8 } else { 0 };
            }
            data[108] = (next() % 4) as u8;
        }
        if TokenHolding::read(&data).is_some() {
            accepted += 1;
        }
        agrees(&data);
    }
    assert!(accepted > 500);
    assert!(accepted < 3500);
}
