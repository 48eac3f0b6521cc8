//! What holds of the lottery across its instructions.
use vstd::prelude::*;
use crate::lottery::{
    buy_ticket_spec, choose_winner_outcome, choose_winner_spec, claim_prize_spec,
    commit_randomness_outcome, commit_randomness_spec, initial_lottery, sale_fits, winning_number,
    CollectionRef, ErrorCode, TokenLottery,
};
use crate::naming::{
    decimal, lemma_decimal_injective, lemma_ticket_name_nul_free, lemma_without_nul_append,
    lemma_without_nul_of_nul_free, lemma_without_nul_of_nuls, ticket_name_spec, without_nul, NAME,
};
use crate::randomness::RandomnessReading;

verus! {

/// The invariant of the lottery account: the pot never holds more than the
/// tickets sold have paid, and a chosen winner is the number of a ticket sold.
pub open spec fn well_formed(l: TokenLottery) -> bool {
    &&& l.lottery_pot_amount <= l.ticket_price * l.total_tickets
    &&& l.winner_chosen ==> l.winner < l.total_tickets
}

/// The configuration that no instruction changes.
pub open spec fn same_configuration(a: TokenLottery, b: TokenLottery) -> bool {
    &&& a.start_time == b.start_time
    &&& a.end_time == b.end_time
    &&& a.ticket_price == b.ticket_price
    &&& a.authority == b.authority
    &&& a.bump == b.bump
}

/// A run of `count` NUL characters, the padding of a stored metadata name.
pub open spec fn nul_padding(count: nat) -> Seq<char> {
    Seq::new(count, |i: int| '\0')
}

/// A freshly configured lottery is well formed, has sold nothing, holds an
/// empty pot and has no winner.
pub proof fn lemma_fresh_lottery(l: TokenLottery, start: u64, end: u64, price: u64, authority: [u8; 32], bump: u8)
    requires
        initial_lottery(l, start, end, price, authority, bump),
    ensures
        well_formed(l),
        l.total_tickets == 0,
        l.lottery_pot_amount == 0,
        !l.winner_chosen,
{
}

/// A sale keeps the lottery well formed and its configuration, adds the
/// ticket price to the pot and one ticket to the count, and leaves the draw
/// alone.
pub proof fn lemma_sale(l: TokenLottery, slot: u64)
    requires
        well_formed(l),
        sale_fits(l),
        buy_ticket_spec(l, slot) is Ok,
    ensures
        ({
            let next = buy_ticket_spec(l, slot)->Ok_0;
            &&& well_formed(next)
            &&& same_configuration(l, next)
            &&& next.lottery_pot_amount == l.lottery_pot_amount + l.ticket_price
            &&& next.total_tickets == l.total_tickets + 1
            &&& next.winner == l.winner
            &&& next.winner_chosen == l.winner_chosen
            &&& next.randomness_account == l.randomness_account
        }),
{
    assert(l.ticket_price * (l.total_tickets + 1) == l.ticket_price * l.total_tickets + l.ticket_price)
        by (nonlinear_arith);
}

/// A commitment keeps the lottery well formed and changes nothing but the
/// committed randomness account, and only the authority makes one.
pub proof fn lemma_commit(
    l: TokenLottery,
    payer: [u8; 32],
    key: [u8; 32],
    reading: RandomnessReading,
    slot: u64,
)
    requires
        well_formed(l),
        commit_randomness_spec(l, payer, key, reading, slot) is Ok,
    ensures
        ({
            let next = commit_randomness_spec(l, payer, key, reading, slot)->Ok_0;
            &&& payer == l.authority
            &&& well_formed(next)
            &&& next == TokenLottery { randomness_account: key, ..l }
        }),
{
}

/// A draw is made only by the authority, from the committed randomness
/// account, once sales have ended and while no winner is chosen; it keeps the
/// lottery well formed and its configuration, and picks the number of a
/// ticket sold.
pub proof fn lemma_draw(
    l: TokenLottery,
    payer: [u8; 32],
    key: [u8; 32],
    reading: RandomnessReading,
    slot: u64,
)
    requires
        well_formed(l),
        l.total_tickets > 0,
        choose_winner_spec(l, payer, key, reading, slot) is Ok,
    ensures
        ({
            let next = choose_winner_spec(l, payer, key, reading, slot)->Ok_0;
            &&& payer == l.authority
            &&& key == l.randomness_account
            &&& l.end_time <= slot
            &&& !l.winner_chosen
            &&& next.winner_chosen
            &&& next.winner < next.total_tickets
            &&& next.winner == winning_number(reading.value, l.total_tickets)
            &&& well_formed(next)
            &&& same_configuration(l, next)
            &&& next.total_tickets == l.total_tickets
            &&& next.lottery_pot_amount == l.lottery_pot_amount
        }),
{
}

/// A claim keeps the lottery well formed and its configuration, is paid only
/// once a winner is chosen, and empties the pot.
pub proof fn lemma_claim(
    l: TokenLottery,
    name: Seq<char>,
    collection: Option<CollectionRef>,
    collection_mint: [u8; 32],
    held: u64,
)
    requires
        well_formed(l),
        claim_prize_spec(l, name, collection, collection_mint, held) is Ok,
    ensures
        ({
            let next = claim_prize_spec(l, name, collection, collection_mint, held)->Ok_0;
            &&& l.winner_chosen
            &&& without_nul(name) == ticket_name_spec(l.winner as nat)
            &&& held > 0
            &&& well_formed(next)
            &&& next == TokenLottery { lottery_pot_amount: 0, ..l }
        }),
{
}

/// Whether the pot holds exactly what the tickets sold have paid.
pub open spec fn pot_matches_sales(l: TokenLottery) -> bool {
    l.lottery_pot_amount == l.ticket_price * l.total_tickets
}

/// The pot holds exactly the price of every ticket sold, from configuration
/// until a claim empties it: a fresh lottery has it, and a sale, a commitment
/// and a draw keep it (a refused instruction changes nothing).
pub proof fn lemma_pot_matches_sales(
    l: TokenLottery,
    slot: u64,
    payer: [u8; 32],
    key: [u8; 32],
    reading: RandomnessReading,
)
    requires
        pot_matches_sales(l),
    ensures
        sale_fits(l) ==> (buy_ticket_spec(l, slot) matches Ok(n) ==> pot_matches_sales(n)),
        commit_randomness_spec(l, payer, key, reading, slot) matches Ok(n) ==> pot_matches_sales(n),
        choose_winner_spec(l, payer, key, reading, slot) matches Ok(n) ==> pot_matches_sales(n),
{
    assert(l.ticket_price * (l.total_tickets + 1) == l.ticket_price * l.total_tickets + l.ticket_price)
        by (nonlinear_arith);
}

/// A fresh lottery's pot matches its (absent) sales.
pub proof fn lemma_fresh_pot_matches_sales(l: TokenLottery, start: u64, end: u64, price: u64, authority: [u8; 32], bump: u8)
    requires
        initial_lottery(l, start, end, price, authority, bump),
    ensures
        pot_matches_sales(l),
{
}

/// Offering a ticket for sale at each slot of `slots` in turn: the lottery
/// afterwards, and the numbers of the tickets sold, in order (a refused offer
/// sells nothing and changes nothing).
pub open spec fn run_sales(l: TokenLottery, slots: Seq<u64>) -> (TokenLottery, Seq<u64>)
    decreases slots.len(),
{
    if slots.len() == 0 {
        (l, Seq::<u64>::empty())
    } else {
        let before = run_sales(l, slots.drop_last());
        match buy_ticket_spec(before.0, slots.last()) {
            Ok(next) => (next, before.1.push(before.0.total_tickets)),
            Err(_) => before,
        }
    }
}

/// Over any run of sales the tickets sold get the consecutive numbers that
/// follow the count before the run (so, from a fresh lottery, the k-th sale
/// gets number k and the name `NAME` followed by k in decimal); the ticket
/// count grows by one per sale and never decreases, no two sales share a
/// number or a name, the pot grows by the price of each sale, and the
/// configuration and the draw are left alone.
pub proof fn lemma_sales_numbered(l: TokenLottery, slots: Seq<u64>)
    requires
        l.total_tickets + slots.len() <= u64::MAX,
        l.lottery_pot_amount + l.ticket_price * slots.len() <= u64::MAX,
    ensures
        ({
            let after = run_sales(l, slots).0;
            let numbers = run_sales(l, slots).1;
            &&& numbers.len() <= slots.len()
            &&& forall|k: int| 0 <= k < numbers.len() ==> #[trigger] numbers[k] == l.total_tickets + k
            &&& after.total_tickets == l.total_tickets + numbers.len()
            &&& after.total_tickets >= l.total_tickets
            &&& after.lottery_pot_amount == l.lottery_pot_amount + l.ticket_price * numbers.len()
            &&& (pot_matches_sales(l) ==> pot_matches_sales(after))
            &&& same_configuration(l, after)
            &&& after.winner == l.winner
            &&& after.winner_chosen == l.winner_chosen
            &&& after.randomness_account == l.randomness_account
            &&& forall|i: int, j: int|
                0 <= i < j < numbers.len() ==> #[trigger] ticket_name_spec(numbers[i] as nat)
                    != #[trigger] ticket_name_spec(numbers[j] as nat)
        }),
    decreases slots.len(),
{
    let after = run_sales(l, slots).0;
    let numbers = run_sales(l, slots).1;
    let p = l.ticket_price as int;
    if slots.len() > 0 {
        let len = slots.len() as int;
        assert(p * (len - 1) <= p * len) by (nonlinear_arith)
            requires
                p >= 0,
                len >= 1,
        ;
        lemma_sales_numbered(l, slots.drop_last());
        let before = run_sales(l, slots.drop_last());
        let m = before.1.len() as int;
        match buy_ticket_spec(before.0, slots.last()) {
            Ok(next) => {
                assert(p * (m + 1) <= p * len) by (nonlinear_arith)
                    requires
                        p >= 0,
                        m + 1 <= len,
                ;
                assert(p * (m + 1) == p * m + p) by (nonlinear_arith);
                assert(l.ticket_price * l.total_tickets + p * (m + 1) == p * (l.total_tickets + m + 1))
                    by (nonlinear_arith)
                    requires
                        p == l.ticket_price,
                ;
                assert(numbers == before.1.push(before.0.total_tickets));
                assert forall|k: int| 0 <= k < numbers.len() implies #[trigger] numbers[k]
                    == l.total_tickets + k by {
                    if k < m {
                        assert(numbers[k] == before.1[k]);
                    }
                }
            },
            Err(_) => {},
        }
    }
    assert forall|i: int, j: int| 0 <= i < j < numbers.len() implies #[trigger] ticket_name_spec(
        numbers[i] as nat,
    ) != #[trigger] ticket_name_spec(numbers[j] as nat) by {
        assert(numbers[i] == l.total_tickets + i);
        assert(numbers[j] == l.total_tickets + j);
        lemma_ticket_names_distinct(numbers[i] as nat, numbers[j] as nat);
    }
}

/// Once a winner is chosen it stays chosen and stays the same: no instruction
/// changes it, and every further draw is refused.
pub proof fn lemma_winner_is_final(
    l: TokenLottery,
    slot: u64,
    payer: [u8; 32],
    key: [u8; 32],
    reading: RandomnessReading,
    name: Seq<char>,
    collection: Option<CollectionRef>,
    collection_mint: [u8; 32],
    held: u64,
)
    requires
        l.winner_chosen,
    ensures
        buy_ticket_spec(l, slot) matches Ok(n) ==> n.winner_chosen && n.winner == l.winner,
        commit_randomness_spec(l, payer, key, reading, slot) matches Ok(n) ==> n.winner_chosen
            && n.winner == l.winner,
        claim_prize_spec(l, name, collection, collection_mint, held) matches Ok(n)
            ==> n.winner_chosen && n.winner == l.winner,
        choose_winner_spec(l, payer, key, reading, slot) is Err,
{
}

/// Distinct ticket numbers give distinct ticket names.
pub proof fn lemma_ticket_names_distinct(a: nat, b: nat)
    requires
        a != b,
    ensures
        ticket_name_spec(a) != ticket_name_spec(b),
{
    if ticket_name_spec(a) == ticket_name_spec(b) {
        let n = NAME@.len() as int;
        assert(decimal(a) =~= ticket_name_spec(a).subrange(n, ticket_name_spec(a).len() as int));
        assert(decimal(b) =~= ticket_name_spec(b).subrange(n, ticket_name_spec(b).len() as int));
        lemma_decimal_injective(a, b);
    }
}

/// The name that a sold ticket's metadata stores, NUL-padded or not, passes
/// the name check of a claim exactly when the ticket's number is the winner:
/// one ticket, and only one, can collect the pot.
pub proof fn lemma_only_winning_ticket_claims(l: TokenLottery, number: nat, padding: nat)
    requires
        l.winner_chosen,
    ensures
        (without_nul(ticket_name_spec(number) + nul_padding(padding)) == ticket_name_spec(
            l.winner as nat,
        )) <==> number == l.winner,
{
    let t = ticket_name_spec(number);
    lemma_without_nul_append(t, nul_padding(padding));
    lemma_ticket_name_nul_free(number);
    lemma_without_nul_of_nul_free(t);
    lemma_without_nul_of_nuls(nul_padding(padding));
    assert(without_nul(t + nul_padding(padding)) =~= t);
    if number != l.winner {
        lemma_ticket_names_distinct(number, l.winner as nat);
    }
}

/// A sale is refused exactly outside the sale window, whatever the number of
/// tickets already sold; inside it, the ticket sold is numbered by the count
/// before the sale, the count rises by one and the pot by the price (when
/// neither overflows).
pub proof fn lemma_sale_window(l: TokenLottery, slot: u64)
    ensures
        (buy_ticket_spec(l, slot) is Err) <==> (slot < l.start_time || l.end_time < slot),
        buy_ticket_spec(l, slot) matches Err(e) ==> e == ErrorCode::LotteryNotOpen,
        l.start_time <= slot && slot <= l.end_time && l.total_tickets + 1 <= u64::MAX
            && l.lottery_pot_amount + l.ticket_price <= u64::MAX ==> (buy_ticket_spec(l, slot) matches Ok(n)
            && n.total_tickets == l.total_tickets + 1 && n.lottery_pot_amount == l.lottery_pot_amount
            + l.ticket_price && same_configuration(l, n) && n.winner == l.winner && n.winner_chosen
            == l.winner_chosen),
{
}

/// A draw that passes its checks at the reveal slot, with `n > 0` tickets
/// sold, picks byte 0 of the revealed value modulo `n`, and nothing else of the
/// value matters: two readings whose values share byte 0 (and reveal slot)
/// give the same draw.
pub proof fn lemma_draw_uses_first_byte(
    l: TokenLottery,
    payer: [u8; 32],
    key: [u8; 32],
    reading: RandomnessReading,
    other: RandomnessReading,
    slot: u64,
)
    requires
        key == l.randomness_account,
        payer == l.authority,
        l.end_time <= slot,
        !l.winner_chosen,
        slot == reading.reveal_slot,
        l.total_tickets > 0,
    ensures
        choose_winner_spec(l, payer, key, reading, slot) matches Ok(n) && n.winner_chosen && n.winner as nat
            == reading.value@[0] as nat % l.total_tickets as nat && n.total_tickets == l.total_tickets
            && n.lottery_pot_amount == l.lottery_pot_amount && same_configuration(l, n),
        other.reveal_slot == reading.reveal_slot && other.value@[0] == reading.value@[0]
            ==> choose_winner_spec(l, payer, key, other, slot) == choose_winner_spec(
            l,
            payer,
            key,
            reading,
            slot,
        ),
        choose_winner_outcome(l, payer, key, Some(reading), slot) == Some(
            choose_winner_spec(l, payer, key, reading, slot),
        ),
{
    let v = reading.value@[0] as nat;
    let t = l.total_tickets as nat;
    assert(v % t < t) by (nonlinear_arith)
        requires
            t > 0,
    ;
}

/// A draw aborts only when the account could not be read, or when it reaches
/// the pick with no ticket sold; with a reading at the reveal slot and at least
/// one ticket it succeeds once the checks pass, and a failed check is answered
/// before the account matters.
pub proof fn lemma_draw_aborts_only_when_unreadable_or_unsold(
    l: TokenLottery,
    payer: [u8; 32],
    key: [u8; 32],
    outcome: Option<RandomnessReading>,
    slot: u64,
)
    ensures
        choose_winner_outcome(l, payer, key, outcome, slot) is None ==> {
            &&& key == l.randomness_account
            &&& payer == l.authority
            &&& l.end_time <= slot
            &&& !l.winner_chosen
            &&& (outcome is None || (slot == outcome->0.reveal_slot && l.total_tickets == 0))
        },
        (key != l.randomness_account || payer != l.authority || slot < l.end_time || l.winner_chosen)
            ==> choose_winner_outcome(l, payer, key, outcome, slot) matches Some(Err(_)),
        outcome matches Some(rd) ==> (key == l.randomness_account && payer == l.authority && l.end_time
            <= slot && !l.winner_chosen && slot == rd.reveal_slot && l.total_tickets > 0
            ==> (choose_winner_outcome(l, payer, key, outcome, slot) matches Some(Ok(n))
            && n.winner_chosen && n.winner < l.total_tickets)),
{
    if let Some(rd) = outcome {
        if l.total_tickets > 0 {
            let v = rd.value@[0] as nat;
            let t = l.total_tickets as nat;
            assert(v % t < t) by (nonlinear_arith)
                requires
                    t > 0,
            ;
        }
    }
}

/// The authority's commitment at a slot `s >= 1` to an account read with seed
/// slot `s - 1` succeeds and records the key, whatever the account's reveal
/// slot and value; with another seed slot it is refused as already revealed.
/// It aborts only when the account could not be read or the slot is 0.
pub proof fn lemma_commit_succeeds_on_fresh_seed(
    l: TokenLottery,
    payer: [u8; 32],
    key: [u8; 32],
    outcome: Option<RandomnessReading>,
    slot: u64,
)
    ensures
        outcome matches Some(rd) ==> (payer == l.authority && slot >= 1 && rd.seed_slot + 1 == slot
            ==> (commit_randomness_outcome(l, payer, key, outcome, slot) matches Some(Ok(n)) && n
            == (TokenLottery { randomness_account: key, ..l }))),
        outcome matches Some(rd) ==> (payer == l.authority && slot >= 1 && rd.seed_slot + 1 != slot
            ==> commit_randomness_outcome(l, payer, key, outcome, slot) == Some(
            Err::<TokenLottery, ErrorCode>(ErrorCode::RandomenessAlreadyRevealed),
        )),
        payer != l.authority ==> commit_randomness_outcome(l, payer, key, outcome, slot) == Some(
            Err::<TokenLottery, ErrorCode>(ErrorCode::NotAuthorized),
        ),
        commit_randomness_outcome(l, payer, key, outcome, slot) is None ==> payer == l.authority && (
        outcome is None || slot == 0),
{
}

/// Completeness of a claim: once a winner is chosen, a claim whose collection
/// entry is verified and is the collection mint, whose metadata name is the
/// winning ticket's name once NULs are taken out (any padding), and whose
/// claimer holds a token, succeeds and empties the pot.
pub proof fn lemma_winning_claim_succeeds(
    l: TokenLottery,
    name: Seq<char>,
    collection_mint: [u8; 32],
    held: u64,
)
    requires
        l.winner_chosen,
        without_nul(name) == NAME@ + decimal(l.winner as nat),
        held > 0,
    ensures
        claim_prize_spec(l, name, Some((CollectionRef { verified: true, key: collection_mint })), collection_mint, held)
            == Ok::<TokenLottery, ErrorCode>((TokenLottery { lottery_pot_amount: 0, ..l })),
{
}

/// The winning ticket's name followed by any number of NULs (the padding of
/// a stored metadata name) is accepted by a claim.
pub proof fn lemma_padded_winning_name_claims(
    l: TokenLottery,
    padding: nat,
    collection_mint: [u8; 32],
    held: u64,
)
    requires
        l.winner_chosen,
        held > 0,
    ensures
        claim_prize_spec(
            l,
            NAME@ + decimal(l.winner as nat) + nul_padding(padding),
            Some((CollectionRef { verified: true, key: collection_mint })),
            collection_mint,
            held,
        ) == Ok::<TokenLottery, ErrorCode>((TokenLottery { lottery_pot_amount: 0, ..l })),
{
    lemma_only_winning_ticket_claims(l, l.winner as nat, padding);
    assert(ticket_name_spec(l.winner as nat) == NAME@ + decimal(l.winner as nat));
    lemma_winning_claim_succeeds(l, NAME@ + decimal(l.winner as nat) + nul_padding(padding), collection_mint, held);
}

} // verus!
