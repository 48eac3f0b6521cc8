//! The lottery account and the rules of its instructions. Each instruction
//! is a transition of the account: on an error the account is left as it was
//! (the transaction fails), on success it takes the state that the
//! transition's spec function gives, and the function hands back what the
//! surrounding program has to do with tokens and lamports.
use vstd::prelude::*;
use crate::naming::{
    decimal, name_matches, ticket_name, ticket_name_spec, without_nul, NAME, SYMBOL, URI,
};
use crate::randomness::{
    read_randomness, reading_possible, randomness_layout_ok, revealed_value, RandomnessReading,
};

verus! {

/// The state of the lottery. Keys are the 32 bytes of an account address.
#[derive(Clone, Copy, Debug)]
pub struct TokenLottery {
    pub winner: u64,
    pub winner_chosen: bool,
    pub start_time: u64,
    pub end_time: u64,
    pub lottery_pot_amount: u64,
    pub total_tickets: u64,
    pub ticket_price: u64,
    pub authority: [u8; 32],
    pub randomness_account: [u8; 32],
    pub bump: u8,
}

/// Why an instruction is refused.
#[derive(Clone, Copy, Debug, PartialEq, Eq, Structural)]
pub enum ErrorCode {
    LotteryNotOpen,
    NotAuthorized,
    RandomenessAlreadyRevealed,
    IncorrectRandomnessAccount,
    LotteryNotCompleted,
    WinnerChosen,
    RandomnessNotResolved,
    WinnerNotChosen,
    NotVerifiedTicket,
    IncorrectTicket,
}

/// The message that goes with each error.
pub open spec fn error_message(e: ErrorCode) -> Seq<char> {
    match e {
        ErrorCode::LotteryNotOpen => "Lottery is not open"@,
        ErrorCode::NotAuthorized => "Not Authorized"@,
        ErrorCode::RandomenessAlreadyRevealed => "Randomness Already Revealed"@,
        ErrorCode::IncorrectRandomnessAccount => "Incorrect Randomness Account"@,
        ErrorCode::LotteryNotCompleted => "Lottery not completed"@,
        ErrorCode::WinnerChosen => "Winner already chosen"@,
        ErrorCode::RandomnessNotResolved => "Randomness Not Resolved"@,
        ErrorCode::WinnerNotChosen => "Winner not Chosen"@,
        ErrorCode::NotVerifiedTicket => "Ticket is not verified"@,
        ErrorCode::IncorrectTicket => "Incorrect ticket"@,
    }
}

impl ErrorCode {
    /// The message of this error.
    pub fn message(&self) -> (m: &'static str)
        ensures
            m@ == error_message(*self),
    {
        match self {
            ErrorCode::LotteryNotOpen => "Lottery is not open",
            ErrorCode::NotAuthorized => "Not Authorized",
            ErrorCode::RandomenessAlreadyRevealed => "Randomness Already Revealed",
            ErrorCode::IncorrectRandomnessAccount => "Incorrect Randomness Account",
            ErrorCode::LotteryNotCompleted => "Lottery not completed",
            ErrorCode::WinnerChosen => "Winner already chosen",
            ErrorCode::RandomnessNotResolved => "Randomness Not Resolved",
            ErrorCode::WinnerNotChosen => "Winner not Chosen",
            ErrorCode::NotVerifiedTicket => "Ticket is not verified",
            ErrorCode::IncorrectTicket => "Incorrect ticket",
        }
    }
}

/// Whether two keys are the same.
pub fn keys_equal(a: &[u8; 32], b: &[u8; 32]) -> (r: bool)
    ensures
        r == (*a == *b),
{
    let mut i: usize = 0;
    while i < 32
        invariant
            i <= 32,
            a@.len() == 32,
            b@.len() == 32,
            forall|j: int| 0 <= j < i ==> a@[j] == b@[j],
        decreases 32 - i,
    {
        if a[i] != b[i] {
            proof {
                assert(a[i as int] != b[i as int]);
            }
            return false;
        }
        i = i + 1;
    }
    proof {
        broadcast use vstd::array::group_array_axioms;
        assert(*a =~= *b);
    }
    true
}

/// Whether `k` is the default key, all 32 bytes zero.
pub open spec fn is_zero_key(k: [u8; 32]) -> bool {
    forall|i: int| 0 <= i < 32 ==> #[trigger] k@[i] == 0
}

/// A creator entry of a token's metadata.
#[derive(Clone, Copy, Debug)]
pub struct Creator {
    pub address: [u8; 32],
    pub verified: bool,
    pub share: u8,
}

/// The metadata that a token of the lottery is created with, and its edition.
#[derive(Debug)]
pub struct NftMetadata {
    pub name: String,
    pub symbol: String,
    pub uri: String,
    pub seller_fee_basis_points: u16,
    pub creator: Option<Creator>,
    pub is_mutable: bool,
    pub update_authority_is_signer: bool,
    /// `Some(size)` for a sized collection, `None` for an item.
    pub collection_size: Option<u64>,
    /// The maximum supply of the master edition.
    pub max_supply: Option<u64>,
}

/// What setting up the ticket collection mints and creates.
#[derive(Debug)]
pub struct CollectionSetup {
    /// Tokens minted of the collection mint.
    pub mint_amount: u64,
    pub metadata: NftMetadata,
}

/// What selling a ticket transfers, mints and creates.
#[derive(Debug)]
pub struct TicketIssue {
    /// The number of the ticket sold; its mint is derived from it.
    pub ticket_number: u64,
    /// Lamports that the buyer pays into the lottery account.
    pub price: u64,
    /// Tokens minted of the ticket's mint to the buyer.
    pub mint_amount: u64,
    pub metadata: NftMetadata,
}

/// The collection entry of a ticket's metadata.
#[derive(Clone, Copy, Debug)]
pub struct CollectionRef {
    pub verified: bool,
    pub key: [u8; 32],
}

// ---------------------------------------------------------------------------
// The model of each instruction.
// ---------------------------------------------------------------------------

/// Whether `l` is a freshly configured lottery (the account starts zeroed).
pub open spec fn initial_lottery(
    l: TokenLottery,
    start: u64,
    end: u64,
    price: u64,
    authority: [u8; 32],
    bump: u8,
) -> bool {
    &&& l.winner == 0
    &&& !l.winner_chosen
    &&& l.start_time == start
    &&& l.end_time == end
    &&& l.lottery_pot_amount == 0
    &&& l.total_tickets == 0
    &&& l.ticket_price == price
    &&& l.authority == authority
    &&& is_zero_key(l.randomness_account)
    &&& l.bump == bump
}

/// Tickets are on sale from the start slot to the end slot, both included.
pub open spec fn lottery_open(l: TokenLottery, slot: u64) -> bool {
    l.start_time <= slot && slot <= l.end_time
}

/// The pot and the ticket count can take one more sale without overflow.
pub open spec fn sale_fits(l: TokenLottery) -> bool {
    &&& l.lottery_pot_amount + l.ticket_price <= u64::MAX
    &&& l.total_tickets + 1 <= u64::MAX
}

/// Selling a ticket at `slot`.
pub open spec fn buy_ticket_spec(l: TokenLottery, slot: u64) -> Result<TokenLottery, ErrorCode> {
    if !lottery_open(l, slot) {
        Err(ErrorCode::LotteryNotOpen)
    } else {
        Ok(
            TokenLottery {
                lottery_pot_amount: (l.lottery_pot_amount + l.ticket_price) as u64,
                total_tickets: (l.total_tickets + 1) as u64,
                ..l
            },
        )
    }
}

/// Committing to the randomness account `key`, whose reading is `reading`,
/// at `slot` (at least 1).
pub open spec fn commit_randomness_spec(
    l: TokenLottery,
    payer: [u8; 32],
    key: [u8; 32],
    reading: RandomnessReading,
    slot: u64,
) -> Result<TokenLottery, ErrorCode> {
    if payer != l.authority {
        Err(ErrorCode::NotAuthorized)
    } else if reading.seed_slot != slot - 1 {
        Err(ErrorCode::RandomenessAlreadyRevealed)
    } else {
        Ok(TokenLottery { randomness_account: key, ..l })
    }
}

/// The checks of a draw that come before the randomness account is read.
pub open spec fn draw_precheck(l: TokenLottery, payer: [u8; 32], key: [u8; 32], slot: u64) -> Option<
    ErrorCode,
> {
    if key != l.randomness_account {
        Some(ErrorCode::IncorrectRandomnessAccount)
    } else if payer != l.authority {
        Some(ErrorCode::NotAuthorized)
    } else if slot < l.end_time {
        Some(ErrorCode::LotteryNotCompleted)
    } else if l.winner_chosen {
        Some(ErrorCode::WinnerChosen)
    } else {
        None
    }
}

/// The winning ticket number that a random value picks among `total` tickets.
pub open spec fn winning_number(value: [u8; 32], total: u64) -> u64 {
    (value@[0] as nat % total as nat) as u64
}

/// Drawing the winner from the reading of the committed randomness account.
pub open spec fn choose_winner_spec(
    l: TokenLottery,
    payer: [u8; 32],
    key: [u8; 32],
    reading: RandomnessReading,
    slot: u64,
) -> Result<TokenLottery, ErrorCode> {
    match draw_precheck(l, payer, key, slot) {
        Some(e) => Err(e),
        None => if slot != reading.reveal_slot {
            Err(ErrorCode::RandomnessNotResolved)
        } else {
            Ok(
                TokenLottery {
                    winner: winning_number(reading.value, l.total_tickets),
                    winner_chosen: true,
                    ..l
                },
            )
        },
    }
}

/// Whether the draw passes every check (so that it picks a number).
pub open spec fn draw_reaches_pick(
    l: TokenLottery,
    payer: [u8; 32],
    key: [u8; 32],
    reading: RandomnessReading,
    slot: u64,
) -> bool {
    draw_precheck(l, payer, key, slot) is None && slot == reading.reveal_slot
}

/// Claiming the prize with a ticket whose metadata is named `name`, belongs
/// to `collection`, and of which the claimer holds `held` tokens.
pub open spec fn claim_prize_spec(
    l: TokenLottery,
    name: Seq<char>,
    collection: Option<CollectionRef>,
    collection_mint: [u8; 32],
    held: u64,
) -> Result<TokenLottery, ErrorCode> {
    if !l.winner_chosen {
        Err(ErrorCode::WinnerNotChosen)
    } else if !collection->0.verified {
        Err(ErrorCode::NotVerifiedTicket)
    } else if collection->0.key != collection_mint {
        Err(ErrorCode::IncorrectTicket)
    } else if without_nul(name) != ticket_name_spec(l.winner as nat) {
        Err(ErrorCode::IncorrectTicket)
    } else if held == 0 {
        Err(ErrorCode::IncorrectTicket)
    } else {
        Ok(TokenLottery { lottery_pot_amount: 0, ..l })
    }
}

/// The metadata of the ticket collection, whose mint is `collection_mint`.
pub open spec fn collection_metadata_spec(m: NftMetadata, collection_mint: [u8; 32]) -> bool {
    &&& m.name@ == NAME@
    &&& m.symbol@ == SYMBOL@
    &&& m.uri@ == URI@
    &&& m.seller_fee_basis_points == 0
    &&& m.creator == Some(Creator { address: collection_mint, verified: false, share: 100 })
    &&& m.is_mutable
    &&& m.update_authority_is_signer
    &&& m.collection_size == Some(0u64)
    &&& m.max_supply == Some(0u64)
}

/// The metadata of the ticket with number `number`.
pub open spec fn ticket_metadata_spec(m: NftMetadata, number: u64) -> bool {
    &&& m.name@ == ticket_name_spec(number as nat)
    &&& m.symbol@ == SYMBOL@
    &&& m.uri@ == URI@
    &&& m.seller_fee_basis_points == 0
    &&& m.creator is None
    &&& m.is_mutable
    &&& m.update_authority_is_signer
    &&& m.collection_size is None
    &&& m.max_supply == Some(0u64)
}

// ---------------------------------------------------------------------------
// The instructions.
// ---------------------------------------------------------------------------

/// Configures a lottery: tickets on sale from slot `start` to slot `end` at
/// `price` lamports each, administered by `authority`.
pub fn initialize_config(start: u64, end: u64, price: u64, authority: [u8; 32], bump: u8) -> (l:
    TokenLottery)
    ensures
        initial_lottery(l, start, end, price, authority, bump),
{
    TokenLottery {
        winner: 0,
        winner_chosen: false,
        start_time: start,
        end_time: end,
        lottery_pot_amount: 0,
        total_tickets: 0,
        ticket_price: price,
        authority,
        randomness_account: [0u8; 32],
        bump,
    }
}

/// What creating the ticket collection mints and creates: one token of the
/// collection mint, a sized collection named `NAME` with the collection mint
/// as its only (unverified) creator, and a master edition of supply 0.
pub fn initialize_lottery(collection_mint: [u8; 32]) -> (s: CollectionSetup)
    ensures
        s.mint_amount == 1,
        collection_metadata_spec(s.metadata, collection_mint),
{
    CollectionSetup {
        mint_amount: 1,
        metadata: NftMetadata {
            name: NAME.to_owned(),
            symbol: SYMBOL.to_owned(),
            uri: URI.to_owned(),
            seller_fee_basis_points: 0,
            creator: Some(Creator { address: collection_mint, verified: false, share: 100 }),
            is_mutable: true,
            update_authority_is_signer: true,
            collection_size: Some(0),
            max_supply: Some(0),
        },
    }
}

/// Sells a ticket at `slot`: refused outside the sale window; otherwise the
/// ticket gets the next number, its price goes to the pot, and the caller is
/// told what to transfer, mint and create.
pub fn buy_ticket(lottery: &mut TokenLottery, slot: u64) -> (r: Result<TicketIssue, ErrorCode>)
    requires
        lottery_open(*old(lottery), slot) ==> sale_fits(*old(lottery)),
    ensures
        match buy_ticket_spec(*old(lottery), slot) {
            Ok(next) => {
                &&& *final(lottery) == next
                &&& r matches Ok(issue) && {
                    &&& issue.ticket_number == old(lottery).total_tickets
                    &&& issue.price == old(lottery).ticket_price
                    &&& issue.mint_amount == 1
                    &&& ticket_metadata_spec(issue.metadata, old(lottery).total_tickets)
                }
            },
            Err(e) => *final(lottery) == *old(lottery) && (r matches Err(x) && x == e),
        },
        (r is Err) <==> (slot < old(lottery).start_time || old(lottery).end_time < slot),
        r is Ok ==> final(lottery).total_tickets == old(lottery).total_tickets + 1
            && final(lottery).lottery_pot_amount == old(lottery).lottery_pot_amount + old(
            lottery,
        ).ticket_price,
{
    if slot < lottery.start_time || slot > lottery.end_time {
        return Err(ErrorCode::LotteryNotOpen);
    }
    let number = lottery.total_tickets;
    let name = ticket_name(number);
    lottery.lottery_pot_amount = lottery.lottery_pot_amount + lottery.ticket_price;
    lottery.total_tickets = lottery.total_tickets + 1;
    Ok(
        TicketIssue {
            ticket_number: number,
            price: lottery.ticket_price,
            mint_amount: 1,
            metadata: NftMetadata {
                name,
                symbol: SYMBOL.to_owned(),
                uri: URI.to_owned(),
                seller_fee_basis_points: 0,
                creator: None,
                is_mutable: true,
                update_authority_is_signer: true,
                collection_size: None,
                max_supply: Some(0),
            },
        },
    )
}

/// Commits the lottery to the randomness account `key`, read as `reading`,
/// at `slot`.
pub fn commit_randomness_with_reading(
    lottery: &mut TokenLottery,
    payer: [u8; 32],
    key: [u8; 32],
    reading: &RandomnessReading,
    slot: u64,
) -> (r: Result<(), ErrorCode>)
    requires
        payer == old(lottery).authority ==> slot >= 1,
    ensures
        match commit_randomness_spec(*old(lottery), payer, key, *reading, slot) {
            Ok(next) => *final(lottery) == next && r == Ok::<(), ErrorCode>(()),
            Err(e) => *final(lottery) == *old(lottery) && r == Err::<(), ErrorCode>(e),
        },
        payer == old(lottery).authority && reading.seed_slot + 1 == slot ==> r is Ok
            && final(lottery).randomness_account == key,
{
    if !keys_equal(&payer, &lottery.authority) {
        return Err(ErrorCode::NotAuthorized);
    }
    if reading.seed_slot != slot - 1 {
        return Err(ErrorCode::RandomenessAlreadyRevealed);
    }
    lottery.randomness_account = key;
    Ok(())
}

/// What committing gives when reading the account gave `outcome`: `None` where
/// the instruction aborts (the account could not be read, or slot 0).
pub open spec fn commit_randomness_outcome(
    l: TokenLottery,
    payer: [u8; 32],
    key: [u8; 32],
    outcome: Option<RandomnessReading>,
    slot: u64,
) -> Option<Result<TokenLottery, ErrorCode>> {
    if payer != l.authority {
        Some(Err(ErrorCode::NotAuthorized))
    } else {
        match outcome {
            None => None,
            Some(reading) => if slot == 0 {
                None
            } else {
                Some(commit_randomness_spec(l, payer, key, reading, slot))
            },
        }
    }
}

/// Whether `r` and the move from `before` to `after` are what `outcome` says.
pub open spec fn outcome_followed(
    r: Option<Result<(), ErrorCode>>,
    before: TokenLottery,
    after: TokenLottery,
    outcome: Option<Result<TokenLottery, ErrorCode>>,
) -> bool {
    match outcome {
        None => r is None && after == before,
        Some(Ok(next)) => r == Some(Ok::<(), ErrorCode>(())) && after == next,
        Some(Err(e)) => r == Some(Err::<(), ErrorCode>(e)) && after == before,
    }
}

/// Commits the lottery to the randomness account `key`, whose data is
/// `randomness_data`, at `slot`. `None` stands for an aborted instruction
/// (an authorized commit whose account cannot be read, or at slot 0); the
/// lottery is then left as it was.
pub fn commit_randomness(
    lottery: &mut TokenLottery,
    payer: [u8; 32],
    key: [u8; 32],
    randomness_data: &mut [u8],
    slot: u64,
) -> (r: Option<Result<(), ErrorCode>>)
    ensures
        exists|outcome: Option<RandomnessReading>|
            #[trigger] reading_possible(old(randomness_data)@, outcome) && outcome_followed(
                r,
                *old(lottery),
                *final(lottery),
                commit_randomness_outcome(*old(lottery), payer, key, outcome, slot),
            ),
        payer != old(lottery).authority ==> r == Some(Err::<(), ErrorCode>(ErrorCode::NotAuthorized)),
        payer == old(lottery).authority && !randomness_layout_ok(old(randomness_data)@) ==> r is None,
        r is None ==> *final(lottery) == *old(lottery),
        final(randomness_data)@ == old(randomness_data)@,
{
    if !keys_equal(&payer, &lottery.authority) {
        proof {
            assert(reading_possible(old(randomness_data)@, None));
        }
        return Some(Err(ErrorCode::NotAuthorized));
    }
    let outcome = read_randomness(randomness_data);
    match outcome {
        None => None,
        Some(reading) => {
            if slot == 0 {
                None
            } else {
                Some(commit_randomness_with_reading(lottery, payer, key, &reading, slot))
            }
        },
    }
}

/// Draws the winner from `reading`, the reading of the committed randomness
/// account `key`, at `slot`.
pub fn choose_winner_with_reading(
    lottery: &mut TokenLottery,
    payer: [u8; 32],
    key: [u8; 32],
    reading: &RandomnessReading,
    slot: u64,
) -> (r: Result<(), ErrorCode>)
    requires
        draw_reaches_pick(*old(lottery), payer, key, *reading, slot) ==> old(lottery).total_tickets
            > 0,
    ensures
        match choose_winner_spec(*old(lottery), payer, key, *reading, slot) {
            Ok(next) => *final(lottery) == next && r == Ok::<(), ErrorCode>(()),
            Err(e) => *final(lottery) == *old(lottery) && r == Err::<(), ErrorCode>(e),
        },
        draw_reaches_pick(*old(lottery), payer, key, *reading, slot) ==> r is Ok,
        r is Ok ==> final(lottery).winner_chosen && final(lottery).winner as nat == reading.value@[0] as nat
            % old(lottery).total_tickets as nat,
{
    match draw_precheck_exec(lottery, &payer, &key, slot) {
        Some(e) => {
            return Err(e);
        },
        None => {},
    }
    match revealed_value(reading, slot) {
        None => Err(ErrorCode::RandomnessNotResolved),
        Some(value) => {
            let winner = (value[0] as u64) % lottery.total_tickets;
            lottery.winner = winner;
            lottery.winner_chosen = true;
            Ok(())
        },
    }
}

fn draw_precheck_exec(lottery: &TokenLottery, payer: &[u8; 32], key: &[u8; 32], slot: u64) -> (r:
    Option<ErrorCode>)
    ensures
        r == draw_precheck(*lottery, *payer, *key, slot),
{
    if !keys_equal(key, &lottery.randomness_account) {
        Some(ErrorCode::IncorrectRandomnessAccount)
    } else if !keys_equal(payer, &lottery.authority) {
        Some(ErrorCode::NotAuthorized)
    } else if slot < lottery.end_time {
        Some(ErrorCode::LotteryNotCompleted)
    } else if lottery.winner_chosen {
        Some(ErrorCode::WinnerChosen)
    } else {
        None
    }
}

/// What drawing gives when reading the account gave `outcome`: `None` where the
/// instruction aborts (the account could not be read, or there is no ticket
/// to pick from).
pub open spec fn choose_winner_outcome(
    l: TokenLottery,
    payer: [u8; 32],
    key: [u8; 32],
    outcome: Option<RandomnessReading>,
    slot: u64,
) -> Option<Result<TokenLottery, ErrorCode>> {
    match draw_precheck(l, payer, key, slot) {
        Some(e) => Some(Err(e)),
        None => match outcome {
            None => None,
            Some(reading) => if slot == reading.reveal_slot && l.total_tickets == 0 {
                None
            } else {
                Some(choose_winner_spec(l, payer, key, reading, slot))
            },
        },
    }
}

/// Draws the winner from the randomness account `key`, whose data is
/// `randomness_data`, at `slot`. `None` stands for an aborted instruction
/// (every check passed but the account cannot be read, or there is no
/// ticket); the lottery is then left as it was.
pub fn choose_winner(
    lottery: &mut TokenLottery,
    payer: [u8; 32],
    key: [u8; 32],
    randomness_data: &mut [u8],
    slot: u64,
) -> (r: Option<Result<(), ErrorCode>>)
    ensures
        exists|outcome: Option<RandomnessReading>|
            #[trigger] reading_possible(old(randomness_data)@, outcome) && outcome_followed(
                r,
                *old(lottery),
                *final(lottery),
                choose_winner_outcome(*old(lottery), payer, key, outcome, slot),
            ),
        draw_precheck(*old(lottery), payer, key, slot) matches Some(e) ==> r == Some(
            Err::<(), ErrorCode>(e),
        ),
        draw_precheck(*old(lottery), payer, key, slot) is None && !randomness_layout_ok(
            old(randomness_data)@,
        ) ==> r is None,
        r is None ==> *final(lottery) == *old(lottery),
        final(randomness_data)@ == old(randomness_data)@,
{
    match draw_precheck_exec(lottery, &payer, &key, slot) {
        Some(e) => {
            proof {
                assert(reading_possible(old(randomness_data)@, None));
            }
            return Some(Err(e));
        },
        None => {},
    }
    let outcome = read_randomness(randomness_data);
    match outcome {
        None => None,
        Some(reading) => {
            if slot == reading.reveal_slot && lottery.total_tickets == 0 {
                None
            } else {
                Some(choose_winner_with_reading(lottery, payer, key, &reading, slot))
            }
        },
    }
}

/// Pays the pot to the holder of the winning ticket. The ticket is described
/// by its metadata's `name` and `collection` entry and by the number of its
/// tokens that the claimer holds. On success the pot is emptied and its amount
/// handed back, to be moved from the lottery account to the claimer.
pub fn claim_prize(
    lottery: &mut TokenLottery,
    metadata_name: &str,
    collection: Option<CollectionRef>,
    collection_mint: [u8; 32],
    held: u64,
) -> (r: Result<u64, ErrorCode>)
    requires
        old(lottery).winner_chosen ==> collection is Some,
    ensures
        match claim_prize_spec(*old(lottery), metadata_name@, collection, collection_mint, held) {
            Ok(next) => *final(lottery) == next && r == Ok::<u64, ErrorCode>(
                old(lottery).lottery_pot_amount,
            ),
            Err(e) => *final(lottery) == *old(lottery) && r == Err::<u64, ErrorCode>(e),
        },
        old(lottery).winner_chosen && collection == Some((CollectionRef { verified: true, key: collection_mint }))
            && without_nul(metadata_name@) == NAME@ + decimal(old(lottery).winner as nat) && held > 0
            ==> r == Ok::<u64, ErrorCode>(old(lottery).lottery_pot_amount) && final(lottery).lottery_pot_amount
            == 0,
{
    if !lottery.winner_chosen {
        return Err(ErrorCode::WinnerNotChosen);
    }
    let entry = match collection {
        Some(c) => c,
        None => {
            // ruled out by the precondition once a winner is chosen
            return Err(ErrorCode::IncorrectTicket);
        },
    };
    if !entry.verified {
        return Err(ErrorCode::NotVerifiedTicket);
    }
    if !keys_equal(&entry.key, &collection_mint) {
        return Err(ErrorCode::IncorrectTicket);
    }
    let expected = ticket_name(lottery.winner);
    if !name_matches(metadata_name, expected.as_str()) {
        return Err(ErrorCode::IncorrectTicket);
    }
    if held == 0 {
        return Err(ErrorCode::IncorrectTicket);
    }
    let amount = lottery.lottery_pot_amount;
    lottery.lottery_pot_amount = 0;
    Ok(amount)
}

} // verus!
