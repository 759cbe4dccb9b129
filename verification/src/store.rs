//! The allocator of fallback identifiers.

use vstd::prelude::*;
use vstd::string::StringExecFns;
use crate::text::{decimal, digit_char, digit_text};

verus! {

/// One use of an identifier store.
pub enum StoreOp {
    Next,
    Back,
    Reset,
}

/// The counter after one use.
pub open spec fn step(count: nat, op: StoreOp) -> nat {
    match op {
        StoreOp::Next => count + 1,
        StoreOp::Back => if count == 0 {
            0
        } else {
            (count - 1) as nat
        },
        StoreOp::Reset => 0,
    }
}

/// The counter after a sequence of uses, the first of them first.
pub open spec fn run(count: nat, ops: Seq<StoreOp>) -> nat
    decreases ops.len(),
{
    if ops.len() == 0 {
        count
    } else {
        step(run(count, ops.drop_last()), ops.last())
    }
}

/// How many more identifiers were handed out than taken back, over a
/// sequence of uses without a reset.
pub open spec fn balance(ops: Seq<StoreOp>) -> int
    decreases ops.len(),
{
    if ops.len() == 0 {
        0
    } else {
        balance(ops.drop_last()) + match ops.last() {
            StoreOp::Next => 1int,
            StoreOp::Back => -1int,
            StoreOp::Reset => 0int,
        }
    }
}

/// Whether, at every point of the sequence, no more identifiers have been
/// taken back than were handed out before.
pub open spec fn never_overdrawn(ops: Seq<StoreOp>) -> bool {
    forall|k: int| 0 <= k <= ops.len() ==> balance(#[trigger] ops.take(k)) >= 0
}

/// Where no more identifiers are ever taken back than were handed out,
/// the counter of a fresh store is the number handed out less the number
/// taken back: it never had to stop at zero.
pub proof fn lemma_counter_is_balance(ops: Seq<StoreOp>)
    requires
        never_overdrawn(ops),
        forall|k: int| 0 <= k < ops.len() ==> !(ops[k] is Reset),
    ensures
        run(0, ops) == balance(ops),
    decreases ops.len(),
{
    if ops.len() > 0 {
        let head = ops.drop_last();
        assert forall|k: int| 0 <= k <= head.len() implies balance(#[trigger] head.take(k))
            >= 0 by {
            assert(head.take(k) =~= ops.take(k));
        }
        lemma_counter_is_balance(head);
        assert(ops.take(ops.len() as int) =~= ops);
        assert(head.take(head.len() as int) =~= head);
        assert(balance(ops.take(ops.len() as int)) >= 0);
    }
}

/// After a reset the next identifier is `"0"`, whatever went before.
pub proof fn lemma_reset_starts_over(count: nat)
    ensures
        decimal(step(count, StoreOp::Reset)) == seq!['0'],
{
    assert(decimal(0) =~= seq!['0']);
}

/// The number that digits spell, the last digit of the numeral first.
spec fn value(digits: Seq<u8>) -> nat
    decreases digits.len(),
{
    if digits.len() == 0 {
        0
    } else {
        digits[0] as nat + 10 * value(digits.skip(1))
    }
}

/// Whether the digits are a numeral: at least one digit, each below ten,
/// and no zero in front of a numeral of several digits.
spec fn is_numeral(digits: Seq<u8>) -> bool {
    &&& digits.len() >= 1
    &&& forall|i: int| 0 <= i < digits.len() ==> #[trigger] digits[i] < 10
    &&& digits.len() > 1 ==> digits.last() != 0
}

/// The digits as text, the first digit of the numeral first.
spec fn numeral_text(digits: Seq<u8>) -> Seq<char> {
    Seq::new(digits.len(), |i: int| digit_char(digits[digits.len() - 1 - i] as nat))
}

/// The digits of the next number.
spec fn raised(digits: Seq<u8>) -> Seq<u8>
    decreases digits.len(),
{
    if digits.len() == 0 {
        seq![1u8]
    } else if digits[0] == 9 {
        seq![0u8] + raised(digits.skip(1))
    } else {
        seq![(digits[0] + 1) as u8] + digits.skip(1)
    }
}

/// The digits of the number before, with a zero in front where the
/// numeral gets shorter.
spec fn lowered(digits: Seq<u8>) -> Seq<u8>
    decreases digits.len(),
{
    if digits.len() == 0 {
        digits
    } else if digits[0] == 0 {
        seq![9u8] + lowered(digits.skip(1))
    } else {
        seq![(digits[0] - 1) as u8] + digits.skip(1)
    }
}

proof fn lemma_numeral_text(digits: Seq<u8>)
    requires
        is_numeral(digits),
    ensures
        numeral_text(digits) == decimal(value(digits)),
    decreases digits.len(),
{
    let rest = digits.skip(1);
    if digits.len() == 1 {
        assert(value(rest) == 0);
        assert(numeral_text(digits) =~= seq![digit_char(digits[0] as nat)]);
    } else {
        assert(rest.last() == digits.last());
        assert forall|i: int| 0 <= i < rest.len() implies #[trigger] rest[i] < 10 by {
            assert(rest[i] == digits[i + 1]);
        }
        lemma_numeral_text(rest);
        lemma_value_of_numeral(rest);
        let n = value(digits);
        assert(n == digits[0] as nat + 10 * value(rest));
        assert(n >= 10);
        assert(n / 10 == value(rest));
        assert(n % 10 == digits[0] as nat);
        assert(numeral_text(digits) =~= numeral_text(rest).push(digit_char(digits[0] as nat)));
    }
}

proof fn lemma_value_of_numeral(digits: Seq<u8>)
    requires
        is_numeral(digits),
    ensures
        digits.len() > 1 ==> value(digits) >= 1,
        (digits.len() == 1 && digits[0] != 0) ==> value(digits) >= 1,
    decreases digits.len(),
{
    let rest = digits.skip(1);
    if digits.len() == 1 {
        assert(value(rest) == 0);
    } else {
        assert(rest.last() == digits.last());
        assert forall|i: int| 0 <= i < rest.len() implies #[trigger] rest[i] < 10 by {
            assert(rest[i] == digits[i + 1]);
        }
        lemma_value_of_numeral(rest);
    }
}

proof fn lemma_raised(digits: Seq<u8>)
    requires
        forall|i: int| 0 <= i < digits.len() ==> #[trigger] digits[i] < 10,
        digits.len() > 0 ==> digits.last() != 0 || digits.len() == 1,
    ensures
        value(raised(digits)) == value(digits) + 1,
        is_numeral(raised(digits)),
        raised(digits).len() >= digits.len(),
    decreases digits.len(),
{
    let rest = digits.skip(1);
    if digits.len() == 0 {
        assert(value(seq![1u8].skip(1)) == 0);
        assert(seq![1u8][0] < 10);
    } else if digits[0] == 9 {
        assert forall|i: int| 0 <= i < rest.len() implies #[trigger] rest[i] < 10 by {
            assert(rest[i] == digits[i + 1]);
        }
        if rest.len() > 0 {
            assert(rest.last() == digits.last());
        }
        lemma_raised(rest);
        let inner = raised(rest);
        let up = seq![0u8] + inner;
        assert(up.skip(1) =~= inner);
        assert(up.last() == inner.last());
        assert forall|i: int| 0 <= i < up.len() implies #[trigger] up[i] < 10 by {
            if i > 0 {
                assert(up[i] == inner[i - 1]);
            }
        }
        if inner.len() == 1 {
            assert(value(inner.skip(1)) == 0);
            assert(value(inner) == inner[0] as nat);
        }
    } else {
        let up = seq![(digits[0] + 1) as u8] + rest;
        assert(up.skip(1) =~= rest);
        if digits.len() > 1 {
            assert(up.last() == digits.last());
        }
        assert forall|i: int| 0 <= i < up.len() implies #[trigger] up[i] < 10 by {
            if i > 0 {
                assert(up[i] == digits[i]);
            }
        }
    }
}

proof fn lemma_lowered(digits: Seq<u8>)
    requires
        is_numeral(digits),
        value(digits) > 0,
    ensures
        value(lowered(digits)) == value(digits) - 1,
        lowered(digits).len() == digits.len(),
        forall|i: int| 0 <= i < digits.len() ==> #[trigger] lowered(digits)[i] < 10,
        digits.len() > 1 && lowered(digits).last() == 0 ==> is_numeral(
            lowered(digits).drop_last(),
        ),
        digits.len() > 1 && lowered(digits).last() == 0 ==> value(lowered(digits).drop_last())
            == value(lowered(digits)),
    decreases digits.len(),
{
    let rest = digits.skip(1);
    let down = lowered(digits);
    if digits.len() == 1 {
        assert(value(rest) == 0);
        assert(down.skip(1) =~= rest);
    } else {
        assert(rest.last() == digits.last());
        assert forall|i: int| 0 <= i < rest.len() implies #[trigger] rest[i] < 10 by {
            assert(rest[i] == digits[i + 1]);
        }
        lemma_value_of_numeral(rest);
        if digits[0] == 0 {
            lemma_lowered(rest);
            let inner = lowered(rest);
            assert(down =~= seq![9u8] + inner);
            assert(down.skip(1) =~= inner);
            assert forall|i: int| 0 <= i < digits.len() implies #[trigger] down[i] < 10 by {
                if i > 0 {
                    assert(down[i] == inner[i - 1]);
                }
            }
            assert(down.last() == inner.last());
            if down.last() == 0 {
                let short = down.drop_last();
                if rest.len() > 1 {
                    assert(short =~= seq![9u8] + inner.drop_last());
                    assert(short.skip(1) =~= inner.drop_last());
                    assert(short.last() == inner.drop_last().last());
                    assert forall|i: int| 0 <= i < short.len() implies #[trigger] short[i]
                        < 10 by {
                        assert(short[i] == down[i]);
                    }
                } else {
                    assert(inner =~= seq![0u8]);
                    assert(short =~= seq![9u8]);
                    assert(value(inner.skip(1)) == 0);
                    assert(value(short.skip(1)) == 0);
                }
            }
        } else {
            assert(down =~= seq![(digits[0] - 1) as u8] + rest);
            assert(down.skip(1) =~= rest);
            assert(down.last() == digits.last());
            assert forall|i: int| 0 <= i < digits.len() implies #[trigger] down[i] < 10 by {
                if i > 0 {
                    assert(down[i] == digits[i]);
                }
            }
        }
    }
}


fn copy_digits(digits: &Vec<u8>) -> (r: Vec<u8>)
    ensures
        r@ == digits@,
{
    let mut out: Vec<u8> = Vec::new();
    let mut i: usize = 0;
    while i < digits.len()
        invariant
            i <= digits.len(),
            out@ == digits@.take(i as int),
        decreases digits.len() - i,
    {
        out.push(digits[i]);
        assert(out@ =~= digits@.take(i + 1));
        i = i + 1;
    }
    assert(digits@.take(i as int) =~= digits@);
    out
}

fn raise(digits: Vec<u8>) -> (r: Vec<u8>)
    requires
        forall|k: int| 0 <= k < digits@.len() ==> #[trigger] digits@[k] < 10,
    ensures
        r@ == raised(digits@),
{
    let ghost before = digits@;
    let mut digits = digits;
    let mut i: usize = 0;
    assert(before.take(0).map_values(|d: u8| 0u8) + raised(before.skip(0)) =~= raised(before))
        by {
        assert(before.skip(0) =~= before);
    }
    while i < digits.len() && digits[i] == 9
        invariant
            i <= digits.len(),
            digits@.len() == before.len(),
            forall|k: int| 0 <= k < i ==> before[k] == 9 && digits@[k] == 0,
            forall|k: int| i <= k < before.len() ==> digits@[k] == before[k],
            forall|k: int| 0 <= k < before.len() ==> #[trigger] before[k] < 10,
            raised(before) == before.take(i as int).map_values(|d: u8| 0u8) + raised(
                before.skip(i as int),
            ),
        decreases digits.len() - i,
    {
        assert(before[i as int] == 9);
        digits.set(i, 0);
        proof {
            let tail = before.skip(i as int);
            assert(tail[0] == 9);
            assert(tail.skip(1) =~= before.skip(i + 1));
            assert(before.take(i + 1).map_values(|d: u8| 0u8) =~= before.take(
                i as int,
            ).map_values(|d: u8| 0u8) + seq![0u8]);
            assert(raised(before) =~= before.take(i + 1).map_values(|d: u8| 0u8) + raised(
                before.skip(i + 1),
            ));
        }
        i = i + 1;
    }
    if i == digits.len() {
        digits.push(1);
        assert(before.skip(i as int).len() == 0);
        assert(digits@ =~= raised(before));
    } else {
        let digit = digits[i];
        digits.set(i, digit + 1);
        proof {
            let tail = before.skip(i as int);
            assert(tail[0] == digit);
            assert(raised(tail) =~= seq![(digit + 1) as u8] + tail.skip(1));
            assert(digits@ =~= raised(before));
        }
    }
    digits
}

fn lower(digits: Vec<u8>) -> (r: Vec<u8>)
    requires
        is_numeral(digits@),
        value(digits@) > 0,
    ensures
        is_numeral(r@),
        value(r@) == value(digits@) - 1,
{
    proof {
        lemma_lowered(digits@);
    }
    let ghost before = digits@;
    let mut digits = digits;
    let mut i: usize = 0;
    assert(before.take(0).map_values(|d: u8| 9u8) + lowered(before.skip(0)) =~= lowered(before))
        by {
        assert(before.skip(0) =~= before);
    }
    while i < digits.len() && digits[i] == 0
        invariant
            i <= digits.len(),
            digits@.len() == before.len(),
            forall|k: int| 0 <= k < i ==> before[k] == 0 && digits@[k] == 9,
            forall|k: int| i <= k < before.len() ==> digits@[k] == before[k],
            lowered(before) == before.take(i as int).map_values(|d: u8| 9u8) + lowered(
                before.skip(i as int),
            ),
        decreases digits.len() - i,
    {
        assert(before[i as int] == 0);
        digits.set(i, 9);
        proof {
            let tail = before.skip(i as int);
            assert(tail[0] == 0);
            assert(tail.skip(1) =~= before.skip(i + 1));
            assert(before.take(i + 1).map_values(|d: u8| 9u8) =~= before.take(
                i as int,
            ).map_values(|d: u8| 9u8) + seq![9u8]);
            assert(lowered(before) =~= before.take(i + 1).map_values(|d: u8| 9u8) + lowered(
                before.skip(i + 1),
            ));
        }
        i = i + 1;
    }
    if i == digits.len() {
        proof {
            lemma_zeros_have_no_value(before);
        }
        digits
    } else {
        let digit = digits[i];
        digits.set(i, digit - 1);
        proof {
            let tail = before.skip(i as int);
            assert(tail[0] == digit);
            assert(lowered(tail) =~= seq![(digit - 1) as u8] + tail.skip(1));
            assert(digits@ =~= lowered(before));
        }
        let n = digits.len();
        if n > 1 && digits[n - 1] == 0 {
            digits.pop();
            assert(digits@ =~= lowered(before).drop_last());
        }
        digits
    }
}

proof fn lemma_zeros_have_no_value(digits: Seq<u8>)
    requires
        forall|k: int| 0 <= k < digits.len() ==> digits[k] == 0,
    ensures
        value(digits) == 0,
    decreases digits.len(),
{
    if digits.len() > 0 {
        lemma_zeros_have_no_value(digits.skip(1));
    }
}

/// Hands out the identifiers `"0"`, `"1"`, `"2"`, ... to the parts of one
/// message that have no name of their own. The counter is kept as the
/// numeral itself, so it has no upper bound.
pub struct IdentifierStore {
    /// The digits of the counter, the last digit first.
    digits: Vec<u8>,
}

impl Default for IdentifierStore {
    fn default() -> (store: Self)
        ensures
            store.count() == 0,
    {
        IdentifierStore::new()
    }
}

impl IdentifierStore {
    #[verifier::type_invariant]
    spec fn well_formed(&self) -> bool {
        is_numeral(self.digits@)
    }

    /// The number that the next identifier will spell.
    pub closed spec fn count(&self) -> nat {
        value(self.digits@)
    }

    /// A store whose first identifier is `"0"`.
    pub fn new() -> (store: Self)
        ensures
            store.count() == 0,
    {
        let mut digits: Vec<u8> = Vec::new();
        digits.push(0);
        assert(value(digits@.skip(1)) == 0);
        IdentifierStore { digits }
    }

    fn text(&self) -> (id: String)
        ensures
            id@ == decimal(self.count()),
    {
        proof {
            use_type_invariant(self);
            lemma_numeral_text(self.digits@);
        }
        let ghost wanted = numeral_text(self.digits@);
        let mut id = String::new();
        let mut i: usize = self.digits.len();
        while i > 0
            invariant
                i <= self.digits.len(),
                wanted == numeral_text(self.digits@),
                forall|k: int| 0 <= k < self.digits@.len() ==> #[trigger] self.digits@[k] < 10,
                id@ == wanted.take(self.digits.len() - i),
            decreases i,
        {
            i = i - 1;
            id.append(digit_text(self.digits[i] as u64));
            assert(id@ =~= wanted.take(self.digits.len() - i));
        }
        assert(wanted.take(self.digits.len() as int) =~= wanted);
        id
    }

    /// Returns the counter in decimal and moves the counter one up.
    pub fn next(&mut self) -> (id: String)
        ensures
            id@ == decimal(old(self).count()),
            final(self).count() == step(old(self).count(), StoreOp::Next),
    {
        let id = self.text();
        proof {
            use_type_invariant(&*self);
            lemma_raised(self.digits@);
        }
        let digits = raise(copy_digits(&self.digits));
        self.digits = digits;
        id
    }

    /// Takes back the identifier handed out last: the counter moves one
    /// down, and stays at zero where nothing is left to take back.
    pub fn back(&mut self)
        ensures
            final(self).count() == step(old(self).count(), StoreOp::Back),
    {
        proof {
            use_type_invariant(&*self);
            lemma_value_of_numeral(self.digits@);
        }
        if self.digits.len() == 1 && self.digits[0] == 0 {
            assert(value(self.digits@.skip(1)) == 0);
            return ;
        }
        proof {
            lemma_lowered(self.digits@);
        }
        let digits = lower(copy_digits(&self.digits));
        self.digits = digits;
    }

    /// Starts over: the next identifier is `"0"` again.
    pub fn reset(&mut self)
        ensures
            final(self).count() == step(old(self).count(), StoreOp::Reset),
    {
        let mut digits: Vec<u8> = Vec::new();
        digits.push(0);
        assert(value(digits@.skip(1)) == 0);
        self.digits = digits;
    }
}

} // verus!
