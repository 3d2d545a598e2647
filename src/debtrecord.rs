use vstd::prelude::*;

verus! {

/// The description a record gets when none is given.
pub const DEFAULT_DESCRIPTION: &'static str = "N/A";

/// One owed amount: `debtor` owes `creditor` the sum `amount`.
#[derive(Debug)]
pub struct DebtRecord {
    pub id: i64,
    pub debtor: String,
    pub creditor: String,
    pub amount: i64,
    pub description: String,
}

impl PartialEq for DebtRecord {
    fn eq(&self, o: &DebtRecord) -> (r: bool) {
        self.id == o.id && self.debtor == o.debtor && self.creditor == o.creditor
            && self.amount == o.amount && self.description == o.description
    }
}

impl vstd::std_specs::cmp::PartialEqSpecImpl for DebtRecord {
    open spec fn obeys_eq_spec() -> bool {
        true
    }

    open spec fn eq_spec(&self, o: &DebtRecord) -> bool {
        self.id == o.id && self.debtor@ == o.debtor@ && self.creditor@ == o.creditor@
            && self.amount == o.amount && self.description@ == o.description@
    }
}

/// The character of a decimal digit.
pub open spec fn digit_char(d: nat) -> char {
    if d == 0 { '0' }
    else if d == 1 { '1' }
    else if d == 2 { '2' }
    else if d == 3 { '3' }
    else if d == 4 { '4' }
    else if d == 5 { '5' }
    else if d == 6 { '6' }
    else if d == 7 { '7' }
    else if d == 8 { '8' }
    else { '9' }
}

/// The decimal digits of `n`, most significant first, with no leading zero.
pub open spec fn digits(n: nat) -> Seq<char>
    decreases n,
{
    if n < 10 {
        seq![digit_char(n)]
    } else {
        digits(n / 10).push(digit_char(n % 10))
    }
}

/// `n` written in decimal, with a leading minus sign when negative.
pub open spec fn decimal(n: int) -> Seq<char> {
    if n < 0 {
        seq!['-'] + digits((-n) as nat)
    } else {
        digits(n as nat)
    }
}

/// The one-line rendering of a record:
/// `{id}. {debtor} -> {creditor}: {amount} SEK ({description})`.
pub open spec fn rendered(id: int, debtor: Seq<char>, creditor: Seq<char>, amount: int, description: Seq<char>) -> Seq<char> {
    decimal(id) + ". "@ + debtor + " -> "@ + creditor + ": "@ + decimal(amount) + " SEK ("@
        + description + ")"@
}

fn digit_str(d: u64) -> (r: &'static str)
    requires
        d < 10,
    ensures
        r@ == seq![digit_char(d as nat)],
{
    if d == 0 {
        proof { reveal_strlit("0"); }
        "0"
    } else if d == 1 {
        proof { reveal_strlit("1"); }
        "1"
    } else if d == 2 {
        proof { reveal_strlit("2"); }
        "2"
    } else if d == 3 {
        proof { reveal_strlit("3"); }
        "3"
    } else if d == 4 {
        proof { reveal_strlit("4"); }
        "4"
    } else if d == 5 {
        proof { reveal_strlit("5"); }
        "5"
    } else if d == 6 {
        proof { reveal_strlit("6"); }
        "6"
    } else if d == 7 {
        proof { reveal_strlit("7"); }
        "7"
    } else if d == 8 {
        proof { reveal_strlit("8"); }
        "8"
    } else {
        proof { reveal_strlit("9"); }
        "9"
    }
}

fn append_digits(out: &mut String, m: u64)
    ensures
        final(out)@ == old(out)@ + digits(m as nat),
    decreases m,
{
    if m >= 10 {
        append_digits(out, m / 10);
    }
    out.append(digit_str(m % 10));
}

/// Appends `n` in decimal to `out`.
pub fn append_decimal(out: &mut String, n: i64)
    ensures
        final(out)@ == old(out)@ + decimal(n as int),
{
    if n < 0 {
        proof { reveal_strlit("-"); }
        out.append("-");
        let m: u64 = ((-(n + 1)) as u64) + 1;
        append_digits(out, m);
        assert(old(out)@ + decimal(n as int) =~= old(out)@ + seq!['-'] + digits(m as nat));
    } else {
        append_digits(out, n as u64);
    }
}

impl DebtRecord {
    /// Builds a record from the five columns of a stored row, in column order.
    pub fn from_columns(id: i64, debtor: String, creditor: String, amount: i64, description: String) -> (r: DebtRecord)
        ensures
            r.id == id,
            r.debtor@ == debtor@,
            r.creditor@ == creditor@,
            r.amount == amount,
            r.description@ == description@,
    {
        DebtRecord { id, debtor, creditor, amount, description }
    }

    /// The record as one line of text.
    pub fn render(&self) -> (r: String)
        ensures
            r@ == rendered(self.id as int, self.debtor@, self.creditor@, self.amount as int, self.description@),
    {
        let mut s = String::new();
        append_decimal(&mut s, self.id);
        s.append(". ");
        s.append(self.debtor.as_str());
        s.append(" -> ");
        s.append(self.creditor.as_str());
        s.append(": ");
        append_decimal(&mut s, self.amount);
        s.append(" SEK (");
        s.append(self.description.as_str());
        s.append(")");
        assert(s@ =~= rendered(self.id as int, self.debtor@, self.creditor@, self.amount as int, self.description@));
        s
    }
}

} // verus!
