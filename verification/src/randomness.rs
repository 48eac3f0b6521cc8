//! What the lottery reads of a Switchboard on-demand randomness account: the
//! slot its seed was taken at, the slot its value was revealed at, and the
//! revealed value.
use vstd::prelude::*;
use switchboard_on_demand::RandomnessAccountData;

verus! {

/// The fields of a randomness account that the lottery reads.
#[derive(Clone, Copy, Debug)]
pub struct RandomnessReading {
    pub seed_slot: u64,
    pub reveal_slot: u64,
    pub value: [u8; 32],
}

/// The eight bytes that open the data of every randomness account.
pub open spec fn randomness_discriminator() -> Seq<u8> {
    seq![10u8, 66u8, 229u8, 135u8, 220u8, 239u8, 217u8, 114u8]
}

/// Length of a randomness account's data: the discriminator and the
/// 400-byte record behind it.
pub open spec fn randomness_account_len() -> nat {
    408
}

/// Whether `data` is long enough and opens with the discriminator.
pub open spec fn randomness_layout_ok(data: Seq<u8>) -> bool {
    &&& data.len() >= randomness_account_len()
    &&& data.subrange(0, 8) == randomness_discriminator()
}

/// The number that the bytes of `s` stand for, least significant byte first.
pub open spec fn le_value(s: Seq<u8>) -> nat
    decreases s.len(),
{
    if s.len() == 0 {
        0
    } else {
        s[0] as nat + 256 * le_value(s.drop_first())
    }
}

/// The 8-byte unsigned field at `offset` of `data`, read least significant
/// byte first when `little` holds and most significant byte first otherwise.
pub open spec fn u64_field(data: Seq<u8>, offset: int, little: bool) -> nat {
    let bytes = data.subrange(offset, offset + 8);
    if little {
        le_value(bytes)
    } else {
        le_value(bytes.reverse())
    }
}

/// Whether `reading` holds the fields that `data` stores: the seed slot at
/// byte 104, the reveal slot at byte 144 (both in one byte order, that of the
/// machine) and the value at bytes 152 to 183.
pub open spec fn reading_of(data: Seq<u8>, reading: RandomnessReading) -> bool {
    &&& randomness_layout_ok(data)
    &&& reading.value@ == data.subrange(152, 184)
    &&& ({
        ||| reading.seed_slot == u64_field(data, 104, true) && reading.reveal_slot == u64_field(
            data,
            144,
            true,
        )
        ||| reading.seed_slot == u64_field(data, 104, false) && reading.reveal_slot == u64_field(
            data,
            144,
            false,
        )
    })
}

/// What reading `data` may give: nothing, or the fields that `data` stores.
pub open spec fn reading_possible(data: Seq<u8>, outcome: Option<RandomnessReading>) -> bool {
    match outcome {
        None => true,
        Some(reading) => reading_of(data, reading),
    }
}

/// Calls `switchboard_on_demand::RandomnessAccountData::parse` on `data`
/// itself (the account's own buffer) and keeps the seed slot, reveal slot and
/// value of what it gives. `parse` only reads the buffer. It refuses data
/// shorter than 408 bytes or not opening with the account discriminator, and
/// otherwise reinterprets bytes 8 to 407 as the record (native byte order),
/// unless the buffer is not aligned for it; the contract claims that, and
/// leaves open whether a well-formed buffer is read (that depends on the
/// buffer's address, which the runtime aligns for account data).
#[verifier::external_body]
fn parse_randomness_account(data: &mut [u8]) -> (r: Option<RandomnessReading>)
    ensures
        final(data)@ == old(data)@,
        reading_possible(old(data)@, r),
{
    let cell = std::cell::RefCell::new(data);
    let r = match RandomnessAccountData::parse(cell.borrow()) {
        Ok(account) => Some(
            RandomnessReading { seed_slot: account.seed_slot, reveal_slot: account.reveal_slot, value: account.value },
        ),
        Err(_) => None,
    };
    r
}

/// Reads the randomness account whose data is `data`, in place; `None` when
/// the account cannot be read. Data that is too short or lacks the
/// discriminator is never read; whether well-formed data is read rests on
/// `parse`'s alignment check of the buffer, which depends on where it lies in
/// memory, so no success is promised. The data is left as it was.
pub fn read_randomness(data: &mut [u8]) -> (r: Option<RandomnessReading>)
    ensures
        final(data)@ == old(data)@,
        reading_possible(old(data)@, r),
        !randomness_layout_ok(old(data)@) ==> r is None,
{
    parse_randomness_account(data)
}

/// The value that a reading reveals at `slot`: the one stored, at the reveal
/// slot and at no other (the rule of `RandomnessAccountData::get_value`).
pub fn revealed_value(reading: &RandomnessReading, slot: u64) -> (r: Option<[u8; 32]>)
    ensures
        r == (if slot == reading.reveal_slot {
            Some(reading.value)
        } else {
            None
        }),
{
    if slot != reading.reveal_slot {
        None
    } else {
        Some(reading.value)
    }
}

} // verus!
