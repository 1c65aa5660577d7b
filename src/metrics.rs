//! The report of worker busy time, one line of CSV per poll.
use vstd::prelude::*;
use vstd::string::StringExecFns;

verus! {

/// The decimal digit `d`.
pub open spec fn digit(d: nat) -> char {
    seq!['0', '1', '2', '3', '4', '5', '6', '7', '8', '9'][d as int]
}

/// The decimal numeral of `n`, without sign or leading zeros.
pub open spec fn decimal(n: nat) -> Seq<char>
    decreases n,
{
    if n < 10 {
        seq![digit(n)]
    } else {
        decimal(n / 10).push(digit(n % 10))
    }
}

/// One worker's entry: `(id:percent%)`.
pub open spec fn csv_entry(worker: usize, busy: u128) -> Seq<char> {
    seq!['('] + decimal(worker as nat) + seq![':'] + decimal(busy as nat) + seq!['%', ')']
}

/// The entries of `rows`, separated by commas.
pub open spec fn csv_line(rows: Seq<(usize, u128)>) -> Seq<char>
    decreases rows.len(),
{
    if rows.len() == 0 {
        Seq::empty()
    } else if rows.len() == 1 {
        csv_entry(rows[0].0, rows[0].1)
    } else {
        csv_line(rows.drop_last()) + seq![','] + csv_entry(rows.last().0, rows.last().1)
    }
}

/// The numeral of the decimal digit `d`.
fn digit_text(d: u128) -> (r: &'static str)
    requires
        d < 10,
    ensures
        r@ == seq![digit(d as nat)],
{
    proof {
        reveal_strlit("0");
        reveal_strlit("1");
        reveal_strlit("2");
        reveal_strlit("3");
        reveal_strlit("4");
        reveal_strlit("5");
        reveal_strlit("6");
        reveal_strlit("7");
        reveal_strlit("8");
        reveal_strlit("9");
    }
    if d == 0 {
        "0"
    } else if d == 1 {
        "1"
    } else if d == 2 {
        "2"
    } else if d == 3 {
        "3"
    } else if d == 4 {
        "4"
    } else if d == 5 {
        "5"
    } else if d == 6 {
        "6"
    } else if d == 7 {
        "7"
    } else if d == 8 {
        "8"
    } else {
        "9"
    }
}

/// Appends the decimal numeral of `n` to `out`.
fn push_decimal(out: &mut String, n: u128)
    ensures
        final(out)@ == old(out)@ + decimal(n as nat),
    decreases n,
{
    if n >= 10 {
        push_decimal(out, n / 10);
    }
    out.append(digit_text(n % 10));
    assert(final(out)@ =~= old(out)@ + decimal(n as nat));
}

/// The busy time of each worker since the last poll, in percent, by worker
/// id.
pub struct MetricsReport {
    pub worker_busy_ms: Vec<(usize, u128)>,
}

impl MetricsReport {
    /// Each worker appears once, in ascending order of id.
    pub open spec fn wf(&self) -> bool {
        forall|i: int, j: int|
            0 <= i < j < self.worker_busy_ms@.len() ==> self.worker_busy_ms@[i].0
                < self.worker_busy_ms@[j].0
    }

    /// A line of CSV for this report: its entries in ascending order of
    /// worker id.
    pub fn to_csv(&self) -> (r: String)
        requires
            self.wf(),
        ensures
            r@ == csv_line(self.worker_busy_ms@),
    {
        let rows = &self.worker_busy_ms;
        let mut out = String::new();
        let mut i: usize = 0;
        while i < rows.len()
            invariant
                i <= rows@.len(),
                out@ == csv_line(rows@.take(i as int)),
            decreases rows@.len() - i,
        {
            let (worker, busy) = rows[i];
            proof {
                reveal_strlit(",");
                reveal_strlit("(");
                reveal_strlit(":");
                reveal_strlit("%)");
            }
            if i > 0 {
                out.append(",");
            }
            out.append("(");
            push_decimal(&mut out, worker as u128);
            out.append(":");
            push_decimal(&mut out, busy);
            out.append("%)");
            let ghost next = rows@.take(i + 1);
            assert(next.drop_last() =~= rows@.take(i as int));
            i = i + 1;
            assert(out@ =~= csv_line(rows@.take(i as int)));
        }
        assert(rows@.take(rows@.len() as int) =~= rows@);
        out
    }
}

} // verus!
