//! Ticket names: the collection prefix followed by the ticket number in
//! decimal, and the comparison of a stored (NUL-padded) metadata name with
//! the name that a ticket number stands for.
use vstd::prelude::*;

verus! {

/// Prefix of every ticket's name; the collection itself carries it bare.
pub const NAME: &'static str = "Token Lottery Ticket #";

/// Symbol of the collection and of every ticket.
pub const SYMBOL: &'static str = "TLT";

/// Metadata URI of the collection and of every ticket.
pub const URI: &'static str = "https://raw.githubusercontent.com/rishavmehra/token-lottery/refs/heads/main/metadata.json";

/// The character of a decimal digit.
pub open spec fn digit_char(d: nat) -> char {
    if d == 0 {
        '0'
    } else if d == 1 {
        '1'
    } else if d == 2 {
        '2'
    } else if d == 3 {
        '3'
    } else if d == 4 {
        '4'
    } else if d == 5 {
        '5'
    } else if d == 6 {
        '6'
    } else if d == 7 {
        '7'
    } else if d == 8 {
        '8'
    } else {
        '9'
    }
}

/// Whether a character is one of the ten decimal digits.
pub open spec fn is_digit(c: char) -> bool {
    '0' <= c && c <= '9'
}

/// The decimal representation of `n`, most significant digit first and
/// without leading zeros (the way `u64::to_string` writes it).
pub open spec fn decimal(n: nat) -> Seq<char>
    decreases n,
{
    if n < 10 {
        seq![digit_char(n)]
    } else {
        decimal(n / 10).push(digit_char(n % 10))
    }
}

/// The name that the ticket with number `number` carries.
pub open spec fn ticket_name_spec(number: nat) -> Seq<char> {
    NAME@ + decimal(number)
}

/// `s` with every NUL character taken out, the others kept in order.
pub open spec fn without_nul(s: Seq<char>) -> Seq<char>
    decreases s.len(),
{
    if s.len() == 0 {
        s
    } else if s.last() == '\0' {
        without_nul(s.drop_last())
    } else {
        without_nul(s.drop_last()).push(s.last())
    }
}

/// Every decimal representation has at least one digit, and at least two
/// once the number reaches ten.
pub proof fn lemma_decimal_len(n: nat)
    ensures
        decimal(n).len() >= 1,
        n >= 10 ==> decimal(n).len() >= 2,
    decreases n,
{
    if n >= 10 {
        lemma_decimal_len(n / 10);
    }
}

/// A decimal representation is made of digits only.
pub proof fn lemma_decimal_digits(n: nat)
    ensures
        forall|i: int| 0 <= i < decimal(n).len() ==> is_digit(#[trigger] decimal(n)[i]),
    decreases n,
{
    if n >= 10 {
        lemma_decimal_digits(n / 10);
        assert forall|i: int| 0 <= i < decimal(n).len() implies is_digit(#[trigger] decimal(n)[i]) by {
            if i < decimal(n / 10).len() {
                assert(decimal(n)[i] == decimal(n / 10)[i]);
            }
        }
    }
}

proof fn lemma_digit_char_injective(a: nat, b: nat)
    requires
        a < 10,
        b < 10,
        digit_char(a) == digit_char(b),
    ensures
        a == b,
{
}

/// Two numbers with the same decimal representation are equal.
pub proof fn lemma_decimal_injective(a: nat, b: nat)
    requires
        decimal(a) == decimal(b),
    ensures
        a == b,
    decreases a,
{
    lemma_decimal_len(a);
    lemma_decimal_len(b);
    if a < 10 && b < 10 {
        assert(decimal(a) == seq![digit_char(a)]);
        assert(decimal(b) == seq![digit_char(b)]);
        assert(decimal(a)[0] == digit_char(a));
        assert(decimal(b)[0] == digit_char(b));
        lemma_digit_char_injective(a, b);
    } else if a >= 10 && b >= 10 {
        let da = decimal(a);
        let db = decimal(b);
        assert(da.last() == digit_char(a % 10));
        assert(db.last() == digit_char(b % 10));
        lemma_digit_char_injective(a % 10, b % 10);
        assert(da.drop_last() =~= decimal(a / 10));
        assert(db.drop_last() =~= decimal(b / 10));
        lemma_decimal_injective(a / 10, b / 10);
    } else if a < 10 {
        assert(decimal(a).len() == 1);
    } else {
        assert(decimal(b).len() == 1);
    }
}

/// The ticket prefix holds no NUL character.
pub proof fn lemma_name_prefix_nul_free()
    ensures
        forall|i: int| 0 <= i < NAME@.len() ==> #[trigger] NAME@[i] != '\0',
{
    reveal_strlit("Token Lottery Ticket #");
}

/// Taking NULs out of a concatenation takes them out of each part.
pub proof fn lemma_without_nul_append(a: Seq<char>, b: Seq<char>)
    ensures
        without_nul(a + b) == without_nul(a) + without_nul(b),
    decreases b.len(),
{
    if b.len() == 0 {
        assert(a + b =~= a);
        assert(without_nul(a) + without_nul(b) =~= without_nul(a));
    } else {
        assert((a + b).drop_last() =~= a + b.drop_last());
        assert((a + b).last() == b.last());
        lemma_without_nul_append(a, b.drop_last());
        if b.last() == '\0' {
        } else {
            assert(without_nul(a) + without_nul(b) =~= (without_nul(a) + without_nul(b.drop_last())).push(b.last()));
        }
    }
}

/// A sequence without NUL characters is left as it is.
pub proof fn lemma_without_nul_of_nul_free(s: Seq<char>)
    requires
        forall|i: int| 0 <= i < s.len() ==> #[trigger] s[i] != '\0',
    ensures
        without_nul(s) == s,
    decreases s.len(),
{
    if s.len() > 0 {
        assert(s.last() == s[s.len() - 1]);
        lemma_without_nul_of_nul_free(s.drop_last());
        assert(s.drop_last().push(s.last()) =~= s);
    }
}

/// A sequence of NUL characters only disappears entirely.
pub proof fn lemma_without_nul_of_nuls(s: Seq<char>)
    requires
        forall|i: int| 0 <= i < s.len() ==> #[trigger] s[i] == '\0',
    ensures
        without_nul(s) == Seq::<char>::empty(),
    decreases s.len(),
{
    if s.len() > 0 {
        assert(s.last() == s[s.len() - 1]);
        lemma_without_nul_of_nuls(s.drop_last());
    }
}

/// A ticket name holds no NUL character.
pub proof fn lemma_ticket_name_nul_free(number: nat)
    ensures
        forall|i: int| 0 <= i < ticket_name_spec(number).len() ==> #[trigger] ticket_name_spec(number)[i] != '\0',
{
    lemma_name_prefix_nul_free();
    lemma_decimal_digits(number);
    let t = ticket_name_spec(number);
    assert forall|i: int| 0 <= i < t.len() implies #[trigger] t[i] != '\0' by {
        if i < NAME@.len() {
            assert(t[i] == NAME@[i]);
        } else {
            assert(t[i] == decimal(number)[i - NAME@.len()]);
        }
    }
}

fn digit_str(d: u64) -> (s: &'static str)
    requires
        d < 10,
    ensures
        s@ == seq![digit_char(d as nat)],
{
    if d == 0 {
        proof { reveal_strlit("0"); }
        "0"
    } else if d == 1 {
        proof { reveal_strlit("1"); }
        "1"
    } else if d == 2 {
        proof { reveal_strlit("2"); }
        "2"
    } else if d == 3 {
        proof { reveal_strlit("3"); }
        "3"
    } else if d == 4 {
        proof { reveal_strlit("4"); }
        "4"
    } else if d == 5 {
        proof { reveal_strlit("5"); }
        "5"
    } else if d == 6 {
        proof { reveal_strlit("6"); }
        "6"
    } else if d == 7 {
        proof { reveal_strlit("7"); }
        "7"
    } else if d == 8 {
        proof { reveal_strlit("8"); }
        "8"
    } else {
        proof { reveal_strlit("9"); }
        "9"
    }
}

fn push_decimal(s: &mut String, n: u64)
    ensures
        final(s)@ == old(s)@ + decimal(n as nat),
    decreases n,
{
    let ghost start = s@;
    if n >= 10 {
        push_decimal(s, n / 10);
    }
    s.append(digit_str(n % 10));
    proof {
        if n >= 10 {
            assert(decimal(n as nat) == decimal((n / 10) as nat).push(digit_char((n % 10) as nat)));
            assert(s@ =~= start + decimal(n as nat));
        } else {
            assert(s@ =~= start + decimal(n as nat));
        }
    }
}

/// The name of the ticket with number `number`: `NAME` followed by the number
/// in decimal.
pub fn ticket_name(number: u64) -> (name: String)
    ensures
        name@ == ticket_name_spec(number as nat),
{
    let mut name = NAME.to_owned();
    push_decimal(&mut name, number);
    name
}

/// The characters of `s` without its NUL characters.
pub fn strip_nul(s: &str) -> (out: Vec<char>)
    ensures
        out@ == without_nul(s@),
{
    let n = s.unicode_len();
    let mut out: Vec<char> = Vec::new();
    let mut i: usize = 0;
    while i < n
        invariant
            n as nat == s@.len(),
            i <= n,
            out@ == without_nul(s@.subrange(0, i as int)),
        decreases n - i,
    {
        let c = s.get_char(i);
        proof {
            let pre = s@.subrange(0, i as int + 1);
            assert(pre.drop_last() =~= s@.subrange(0, i as int));
            assert(pre.last() == c);
        }
        if c != '\0' {
            out.push(c);
        }
        i = i + 1;
    }
    proof {
        assert(s@.subrange(0, n as int) =~= s@);
    }
    out
}

/// Whether `metadata_name`, once its NUL padding is taken out, is exactly
/// `expected`.
pub fn name_matches(metadata_name: &str, expected: &str) -> (r: bool)
    ensures
        r == (without_nul(metadata_name@) == expected@),
{
    let stripped = strip_nul(metadata_name);
    let n = expected.unicode_len();
    if stripped.len() != n {
        proof {
            assert(stripped@.len() != expected@.len());
        }
        return false;
    }
    let mut i: usize = 0;
    while i < n
        invariant
            n as nat == expected@.len(),
            stripped@.len() == n,
            stripped@ == without_nul(metadata_name@),
            i <= n,
            forall|j: int| 0 <= j < i ==> stripped@[j] == expected@[j],
        decreases n - i,
    {
        let c = expected.get_char(i);
        if stripped[i] != c {
            proof {
                assert(stripped@[i as int] != expected@[i as int]);
            }
            return false;
        }
        i = i + 1;
    }
    proof {
        assert(stripped@ =~= expected@);
    }
    true
}

} // verus!
