use tokenlottery::lottery::{
    buy_ticket, choose_winner, choose_winner_with_reading, claim_prize, commit_randomness,
    commit_randomness_with_reading, initialize_config, initialize_lottery, keys_equal, CollectionRef,
    ErrorCode, TokenLottery,
};
use tokenlottery::naming::{name_matches, strip_nul, ticket_name, NAME, SYMBOL, URI};
use tokenlottery::randomness::{read_randomness, revealed_value, RandomnessReading};

const AUTHORITY: [u8; 32] = [1u8; 32];
const STRANGER: [u8; 32] = [9u8; 32];
const RANDOMNESS: [u8; 32] = [2u8; 32];
const COLLECTION_MINT: [u8; 32] = [3u8; 32];
const DISCRIMINATOR: [u8; 8] = [10, 66, 229, 135, 220, 239, 217, 114];

fn randomness_account_data(seed_slot: u64, reveal_slot: u64, value: [u8; 32]) -> Vec<u8> {
    let mut data = vec![0u8; 408];
    data[0..8].copy_from_slice(&DISCRIMINATOR);
    data[104..112].copy_from_slice(&seed_slot.to_le_bytes());
    data[144..152].copy_from_slice(&reveal_slot.to_le_bytes());
    data[152..184].copy_from_slice(&value);
    data
}

fn value_with_first(b: u8) -> [u8; 32] {
    let mut v = [0u8; 32];
    v[0] = b;
    v[31] = 0xee;
    v
}

fn lottery_with_tickets(count: u64) -> TokenLottery {
    let mut l = initialize_config(10, 20, 5, AUTHORITY, 254);
    for _ in 0..count {
        buy_ticket(&mut l, 15).unwrap();
    }
    l
}

fn drawn_lottery(count: u64, first_byte: u8) -> TokenLottery {
    let mut l = lottery_with_tickets(count);
    let reading = RandomnessReading { seed_slot: 29, reveal_slot: 31, value: value_with_first(first_byte) };
    commit_randomness_with_reading(&mut l, AUTHORITY, RANDOMNESS, &reading, 30).unwrap();
    choose_winner_with_reading(&mut l, AUTHORITY, RANDOMNESS, &reading, 31).unwrap();
    l
}

#[test]
fn config_sets_every_field() {
    let l = initialize_config(100, 200, 7, AUTHORITY, 42);
    assert_eq!(l.start_time, 100);
    assert_eq!(l.end_time, 200);
    assert_eq!(l.ticket_price, 7);
    assert_eq!(l.authority, AUTHORITY);
    assert_eq!(l.bump, 42);
    assert_eq!(l.lottery_pot_amount, 0);
    assert_eq!(l.total_tickets, 0);
    assert_eq!(l.winner, 0);
    assert!(!l.winner_chosen);
    assert_eq!(l.randomness_account, [0u8; 32]);
}

#[test]
fn collection_setup_metadata() {
    let setup = initialize_lottery(COLLECTION_MINT);
    assert_eq!(setup.mint_amount, 1);
    let m = setup.metadata;
    assert_eq!(m.name, "Token Lottery Ticket #");
    assert_eq!(m.symbol, "TLT");
    assert_eq!(m.uri, URI);
    assert_eq!(m.seller_fee_basis_points, 0);
    let c = m.creator.unwrap();
    assert_eq!(c.address, COLLECTION_MINT);
    assert!(!c.verified);
    assert_eq!(c.share, 100);
    assert!(m.is_mutable);
    assert!(m.update_authority_is_signer);
    assert_eq!(m.collection_size, Some(0));
    assert_eq!(m.max_supply, Some(0));
}

#[test]
fn ticket_sale_outside_window_is_refused() {
    let mut l = initialize_config(10, 20, 5, AUTHORITY, 1);
    assert!(matches!(buy_ticket(&mut l, 9), Err(ErrorCode::LotteryNotOpen)));
    assert!(matches!(buy_ticket(&mut l, 21), Err(ErrorCode::LotteryNotOpen)));
    assert_eq!(l.total_tickets, 0);
    assert_eq!(l.lottery_pot_amount, 0);
}

#[test]
fn ticket_sale_at_window_edges() {
    let mut l = initialize_config(10, 20, 5, AUTHORITY, 1);
    let first = buy_ticket(&mut l, 10).unwrap();
    let second = buy_ticket(&mut l, 20).unwrap();
    assert_eq!(first.ticket_number, 0);
    assert_eq!(second.ticket_number, 1);
    assert_eq!(first.price, 5);
    assert_eq!(first.mint_amount, 1);
    assert_eq!(first.metadata.name, "Token Lottery Ticket #0");
    assert_eq!(second.metadata.name, "Token Lottery Ticket #1");
    assert_eq!(second.metadata.symbol, SYMBOL);
    assert_eq!(second.metadata.uri, URI);
    assert_eq!(second.metadata.seller_fee_basis_points, 0);
    assert!(second.metadata.creator.is_none());
    assert!(second.metadata.collection_size.is_none());
    assert_eq!(second.metadata.max_supply, Some(0));
    assert_eq!(l.total_tickets, 2);
    assert_eq!(l.lottery_pot_amount, 10);
}

#[test]
fn pot_never_exceeds_ticket_payments() {
    let mut l = initialize_config(0, 1000, 3, AUTHORITY, 1);
    for slot in 0..50u64 {
        buy_ticket(&mut l, slot).unwrap();
        assert!(l.lottery_pot_amount <= l.ticket_price * l.total_tickets);
    }
    assert_eq!(l.lottery_pot_amount, 150);
}

#[test]
fn ticket_names_in_decimal() {
    assert_eq!(ticket_name(0), "Token Lottery Ticket #0");
    assert_eq!(ticket_name(9), "Token Lottery Ticket #9");
    assert_eq!(ticket_name(10), "Token Lottery Ticket #10");
    assert_eq!(ticket_name(12345), "Token Lottery Ticket #12345");
    assert_eq!(ticket_name(u64::MAX), "Token Lottery Ticket #18446744073709551615");
    assert_eq!(NAME, "Token Lottery Ticket #");
}

#[test]
fn ticket_names_are_distinct() {
    let names: Vec<String> = (0..200u64).map(ticket_name).collect();
    for i in 0..names.len() {
        for j in (i + 1)..names.len() {
            assert_ne!(names[i], names[j]);
        }
    }
}

#[test]
fn nul_padding_is_ignored() {
    assert_eq!(strip_nul("ab\0c\0\0"), vec!['a', 'b', 'c']);
    assert!(strip_nul("\0\0").is_empty());
    assert!(name_matches("Token Lottery Ticket #3\0\0\0\0", "Token Lottery Ticket #3"));
    assert!(name_matches("Token Lottery Ticket #3", "Token Lottery Ticket #3"));
    assert!(!name_matches("Token Lottery Ticket #30\0", "Token Lottery Ticket #3"));
    assert!(!name_matches("Token Lottery Ticket #", "Token Lottery Ticket #3"));
    assert!(name_matches("é\0ü", "éü"));
}

#[test]
fn keys_compare_by_bytes() {
    assert!(keys_equal(&AUTHORITY, &[1u8; 32]));
    let mut k = AUTHORITY;
    k[31] = 0;
    assert!(!keys_equal(&AUTHORITY, &k));
}

#[test]
fn randomness_account_is_read() {
    let mut data = randomness_account_data(0x0102_0304_0506_0708, 77, value_with_first(200));
    let before = data.clone();
    let reading = read_randomness(&mut data).unwrap();
    assert_eq!(data, before);
    assert_eq!(reading.seed_slot, 0x0102_0304_0506_0708);
    assert_eq!(reading.reveal_slot, 77);
    assert_eq!(reading.value, value_with_first(200));
}

#[test]
fn malformed_randomness_account_is_not_read() {
    let mut good = randomness_account_data(1, 2, [5u8; 32]);
    assert!(read_randomness(&mut good[..407]).is_none());
    assert!(read_randomness(&mut good[..4]).is_none());
    let mut bad = good.clone();
    bad[0] = 11;
    assert!(read_randomness(&mut bad).is_none());
}

#[test]
fn value_revealed_only_at_reveal_slot() {
    let reading = RandomnessReading { seed_slot: 1, reveal_slot: 5, value: [4u8; 32] };
    assert_eq!(revealed_value(&reading, 5), Some([4u8; 32]));
    assert_eq!(revealed_value(&reading, 4), None);
    assert_eq!(revealed_value(&reading, 6), None);
}

#[test]
fn commit_by_stranger_is_refused() {
    let mut l = lottery_with_tickets(2);
    let before = l;
    let mut data = randomness_account_data(29, 31, [0u8; 32]);
    let r = commit_randomness(&mut l, STRANGER, RANDOMNESS, &mut data, 30);
    assert!(matches!(r, Some(Err(ErrorCode::NotAuthorized))));
    // refused before the account is read, even when it cannot be read
    let r = commit_randomness(&mut l, STRANGER, RANDOMNESS, &mut [0u8; 3], 30);
    assert!(matches!(r, Some(Err(ErrorCode::NotAuthorized))));
    assert_eq!(l.randomness_account, before.randomness_account);
}

#[test]
fn commit_records_randomness_account() {
    let mut l = lottery_with_tickets(2);
    let mut data = randomness_account_data(29, 31, [0u8; 32]);
    let r = commit_randomness(&mut l, AUTHORITY, RANDOMNESS, &mut data, 30);
    assert!(matches!(r, Some(Ok(()))));
    assert_eq!(l.randomness_account, RANDOMNESS);
    assert_eq!(l.total_tickets, 2);
}

#[test]
fn commit_of_revealed_randomness_is_refused() {
    let mut l = lottery_with_tickets(2);
    let mut data = randomness_account_data(28, 31, [0u8; 32]);
    let r = commit_randomness(&mut l, AUTHORITY, RANDOMNESS, &mut data, 30);
    assert!(matches!(r, Some(Err(ErrorCode::RandomenessAlreadyRevealed))));
    assert_eq!(l.randomness_account, [0u8; 32]);
}

#[test]
fn commit_aborts_on_unreadable_account_or_slot_zero() {
    let mut l = lottery_with_tickets(2);
    let mut data = randomness_account_data(29, 31, [0u8; 32]);
    assert!(commit_randomness(&mut l, AUTHORITY, RANDOMNESS, &mut data, 0).is_none());
    data[3] = 0;
    assert!(commit_randomness(&mut l, AUTHORITY, RANDOMNESS, &mut data, 30).is_none());
    assert_eq!(l.randomness_account, [0u8; 32]);
}

#[test]
fn draw_checks_in_order() {
    let mut l = lottery_with_tickets(3);
    let mut data = randomness_account_data(29, 31, value_with_first(7));
    commit_randomness(&mut l, AUTHORITY, RANDOMNESS, &mut data, 30).unwrap().unwrap();
    assert!(matches!(
        choose_winner(&mut l, AUTHORITY, STRANGER, &mut data, 31),
        Some(Err(ErrorCode::IncorrectRandomnessAccount))
    ));
    assert!(matches!(
        choose_winner(&mut l, STRANGER, RANDOMNESS, &mut data, 31),
        Some(Err(ErrorCode::NotAuthorized))
    ));
    assert!(matches!(
        choose_winner(&mut l, AUTHORITY, RANDOMNESS, &mut data, 19),
        Some(Err(ErrorCode::LotteryNotCompleted))
    ));
    assert!(matches!(
        choose_winner(&mut l, AUTHORITY, RANDOMNESS, &mut data, 32),
        Some(Err(ErrorCode::RandomnessNotResolved))
    ));
    assert!(!l.winner_chosen);
    assert!(matches!(choose_winner(&mut l, AUTHORITY, RANDOMNESS, &mut data, 31), Some(Ok(()))));
    assert!(l.winner_chosen);
    assert_eq!(l.winner, 7 % 3);
    assert!(matches!(
        choose_winner(&mut l, AUTHORITY, RANDOMNESS, &mut data, 31),
        Some(Err(ErrorCode::WinnerChosen))
    ));
    assert_eq!(l.winner, 1);
}

#[test]
fn draw_aborts_without_tickets_or_readable_account() {
    let mut l = lottery_with_tickets(0);
    let mut data = randomness_account_data(29, 31, value_with_first(7));
    commit_randomness(&mut l, AUTHORITY, RANDOMNESS, &mut data, 30).unwrap().unwrap();
    assert!(choose_winner(&mut l, AUTHORITY, RANDOMNESS, &mut data, 31).is_none());
    // not yet revealed: refused before the division by the ticket count
    assert!(matches!(
        choose_winner(&mut l, AUTHORITY, RANDOMNESS, &mut data, 30),
        Some(Err(ErrorCode::RandomnessNotResolved))
    ));
    let mut l = lottery_with_tickets(2);
    commit_randomness(&mut l, AUTHORITY, RANDOMNESS, &mut data, 30).unwrap().unwrap();
    assert!(choose_winner(&mut l, AUTHORITY, RANDOMNESS, &mut data[..100], 31).is_none());
    assert!(!l.winner_chosen);
}

#[test]
fn winner_is_a_sold_ticket() {
    for count in 1..20u64 {
        for first in [0u8, 1, 7, 128, 255] {
            let l = drawn_lottery(count, first);
            assert!(l.winner < l.total_tickets);
            assert_eq!(l.winner, first as u64 % count);
        }
    }
}

fn collection() -> Option<CollectionRef> {
    Some(CollectionRef { verified: true, key: COLLECTION_MINT })
}

#[test]
fn claim_before_draw_is_refused() {
    let mut l = lottery_with_tickets(3);
    let r = claim_prize(&mut l, "Token Lottery Ticket #0", collection(), COLLECTION_MINT, 1);
    assert!(matches!(r, Err(ErrorCode::WinnerNotChosen)));
    let r = claim_prize(&mut l, "Token Lottery Ticket #0", None, COLLECTION_MINT, 1);
    assert!(matches!(r, Err(ErrorCode::WinnerNotChosen)));
    assert_eq!(l.lottery_pot_amount, 15);
}

#[test]
fn claim_with_wrong_ticket_is_refused() {
    let mut l = drawn_lottery(3, 7);
    let unverified = Some(CollectionRef { verified: false, key: COLLECTION_MINT });
    assert!(matches!(
        claim_prize(&mut l, "Token Lottery Ticket #1", unverified, COLLECTION_MINT, 1),
        Err(ErrorCode::NotVerifiedTicket)
    ));
    let other = Some(CollectionRef { verified: true, key: STRANGER });
    assert!(matches!(
        claim_prize(&mut l, "Token Lottery Ticket #1", other, COLLECTION_MINT, 1),
        Err(ErrorCode::IncorrectTicket)
    ));
    assert!(matches!(
        claim_prize(&mut l, "Token Lottery Ticket #2", collection(), COLLECTION_MINT, 1),
        Err(ErrorCode::IncorrectTicket)
    ));
    assert!(matches!(
        claim_prize(&mut l, "Token Lottery Ticket #1", collection(), COLLECTION_MINT, 0),
        Err(ErrorCode::IncorrectTicket)
    ));
    assert_eq!(l.lottery_pot_amount, 15);
}

#[test]
fn winning_ticket_collects_the_pot_once() {
    let mut l = drawn_lottery(3, 7);
    let p = claim_prize(&mut l, "Token Lottery Ticket #1\0\0\0\0", collection(), COLLECTION_MINT, 1)
        .unwrap();
    assert_eq!(p, 15);
    assert_eq!(l.lottery_pot_amount, 0);
    let again = claim_prize(&mut l, "Token Lottery Ticket #1", collection(), COLLECTION_MINT, 1).unwrap();
    assert_eq!(again, 0);
    assert!(l.winner_chosen);
    assert_eq!(l.winner, 1);
}

#[test]
fn only_the_winning_number_passes_the_name_check() {
    let l = drawn_lottery(10, 123);
    let winner = l.winner;
    for number in 0..10u64 {
        let mut m = l;
        let name = format!("{}\0\0\0", ticket_name(number));
        let r = claim_prize(&mut m, &name, collection(), COLLECTION_MINT, 1);
        assert_eq!(r.is_ok(), number == winner);
    }
}

#[test]
fn configuration_never_changes() {
    let mut l = drawn_lottery(4, 9);
    let _ = claim_prize(&mut l, "Token Lottery Ticket #1", collection(), COLLECTION_MINT, 1);
    assert_eq!(l.authority, AUTHORITY);
    assert_eq!(l.ticket_price, 5);
    assert_eq!(l.start_time, 10);
    assert_eq!(l.end_time, 20);
    assert_eq!(l.bump, 254);
}

#[test]
fn error_messages() {
    assert_eq!(ErrorCode::LotteryNotOpen.message(), "Lottery is not open");
    assert_eq!(ErrorCode::NotAuthorized.message(), "Not Authorized");
    assert_eq!(ErrorCode::RandomenessAlreadyRevealed.message(), "Randomness Already Revealed");
    assert_eq!(ErrorCode::IncorrectRandomnessAccount.message(), "Incorrect Randomness Account");
    assert_eq!(ErrorCode::LotteryNotCompleted.message(), "Lottery not completed");
    assert_eq!(ErrorCode::WinnerChosen.message(), "Winner already chosen");
    assert_eq!(ErrorCode::RandomnessNotResolved.message(), "Randomness Not Resolved");
    assert_eq!(ErrorCode::WinnerNotChosen.message(), "Winner not Chosen");
    assert_eq!(ErrorCode::NotVerifiedTicket.message(), "Ticket is not verified");
    assert_eq!(ErrorCode::IncorrectTicket.message(), "Incorrect ticket");
}

#[test]
fn sales_are_numbered_in_order_and_pot_matches() {
    let mut l = initialize_config(10, 20, 4, AUTHORITY, 1);
    let mut expected = 0u64;
    for slot in [5u64, 10, 12, 25, 15, 9, 20, 21, 11] {
        let before = l.total_tickets;
        match buy_ticket(&mut l, slot) {
            Ok(issue) => {
                assert_eq!(issue.ticket_number, expected);
                assert_eq!(issue.metadata.name, format!("Token Lottery Ticket #{}", expected));
                expected += 1;
            }
            Err(e) => assert_eq!(e, ErrorCode::LotteryNotOpen),
        }
        assert!(l.total_tickets >= before);
        assert_eq!(l.total_tickets, expected);
        assert_eq!(l.lottery_pot_amount, l.ticket_price * l.total_tickets);
    }
    assert_eq!(expected, 5);
}
