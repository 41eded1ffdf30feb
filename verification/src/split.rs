//! The payment-split calculator: distributes a total over the
//! beneficiaries of a sale, merging repeated recipients, and guarantees
//! that the amounts paid out sum exactly to the amounts paid in.

use vstd::prelude::*;

use crate::errors::ErrorResponse;

verus! {

/// Sum of the (signed) amounts of a beneficiary list.
pub open spec fn sum_amounts(s: Seq<(String, i64)>) -> int
    decreases s.len(),
{
    if s.len() == 0 {
        0
    } else {
        sum_amounts(s.drop_last()) + s.last().1
    }
}

/// Sum of the signed amounts with negatives clamped to zero; bounds every
/// partial sum of a list whose processed entries are non-negative.
pub open spec fn sum_clamped(s: Seq<(String, i64)>) -> int
    decreases s.len(),
{
    if s.len() == 0 {
        0
    } else {
        sum_clamped(s.drop_last()) + (if s.last().1 >= 0 {
            s.last().1 as int
        } else {
            0
        })
    }
}

/// Total amount a beneficiary list assigns to recipient `k`.
pub open spec fn key_total(s: Seq<(String, i64)>, k: Seq<char>) -> int
    decreases s.len(),
{
    if s.len() == 0 {
        0
    } else {
        key_total(s.drop_last(), k) + (if s.last().0@ == k {
            s.last().1 as int
        } else {
            0
        })
    }
}

/// Sum of the amounts of a computed split.
pub open spec fn sum_entries(s: Seq<(String, u64)>) -> int
    decreases s.len(),
{
    if s.len() == 0 {
        0
    } else {
        sum_entries(s.drop_last()) + s.last().1
    }
}

/// Amount a computed split assigns to recipient `k`.
pub open spec fn key_amount(s: Seq<(String, u64)>, k: Seq<char>) -> int
    decreases s.len(),
{
    if s.len() == 0 {
        0
    } else {
        key_amount(s.drop_last(), k) + (if s.last().0@ == k {
            s.last().1 as int
        } else {
            0
        })
    }
}

/// True when some entry of `s` names recipient `k`.
pub open spec fn has_key<A>(s: Seq<(String, A)>, k: Seq<char>) -> bool {
    exists|i: int| 0 <= i < s.len() && s[i].0@ == k
}

/// An ordered mapping from recipient address to an amount in
/// native-fiat minor units or token base units; recipients are unique.
pub struct PaymentSplit {
    pub entries: Vec<(String, u64)>,
}

impl PaymentSplit {
    /// Recipients appear at most once.
    pub open spec fn well_formed(self) -> bool {
        forall|i: int, j: int|
            0 <= i < j < self.entries@.len() ==> self.entries@[i].0@ != self.entries@[j].0@
    }

    /// The split's total over all recipients.
    pub open spec fn total(self) -> int {
        sum_entries(self.entries@)
    }

    /// A deep copy of the split.
    pub fn clone_split(&self) -> (r: PaymentSplit)
        ensures
            r.entries@ == self.entries@,
    {
        let mut entries: Vec<(String, u64)> = Vec::new();
        let mut i: usize = 0;
        while i < self.entries.len()
            invariant
                0 <= i <= self.entries@.len(),
                entries@ == self.entries@.take(i as int),
            decreases self.entries@.len() - i,
        {
            let (a, v) = (&self.entries[i].0, self.entries[i].1);
            entries.push((a.clone(), v));
            proof {
                assert(entries@ =~= self.entries@.take(i + 1));
            }
            i += 1;
        }
        proof {
            assert(self.entries@.take(i as int) =~= self.entries@);
        }
        PaymentSplit { entries }
    }
}

proof fn lemma_sum_clamped_bounds_prefix(s: Seq<(String, i64)>, i: int)
    requires
        0 <= i <= s.len(),
        forall|j: int| 0 <= j < i ==> s[j].1 >= 0,
    ensures
        0 <= sum_amounts(s.take(i)) <= sum_clamped(s),
    decreases s.len(),
{
    if s.len() == 0 {
        assert(s.take(i) =~= s);
    } else if i == s.len() {
        assert(s.take(i) =~= s);
        lemma_sum_amounts_le_clamped(s);
        lemma_sum_amounts_nonneg(s);
    } else {
        assert(s.take(i) =~= s.drop_last().take(i));
        assert forall|j: int| 0 <= j < i implies s.drop_last()[j].1 >= 0 by {
            assert(s.drop_last()[j] == s[j]);
        }
        lemma_sum_clamped_bounds_prefix(s.drop_last(), i);
        assert(sum_clamped(s) == sum_clamped(s.drop_last()) + (if s.last().1 >= 0 {
            s.last().1 as int
        } else {
            0
        }));
    }
}

proof fn lemma_sum_amounts_le_clamped(s: Seq<(String, i64)>)
    ensures
        sum_amounts(s) <= sum_clamped(s),
    decreases s.len(),
{
    if s.len() > 0 {
        lemma_sum_amounts_le_clamped(s.drop_last());
    }
}

proof fn lemma_sum_amounts_nonneg(s: Seq<(String, i64)>)
    requires
        forall|j: int| 0 <= j < s.len() ==> s[j].1 >= 0,
    ensures
        sum_amounts(s) >= 0,
    decreases s.len(),
{
    if s.len() > 0 {
        assert forall|j: int| 0 <= j < s.drop_last().len() implies s.drop_last()[j].1 >= 0 by {
            assert(s.drop_last()[j] == s[j]);
        }
        lemma_sum_amounts_nonneg(s.drop_last());
    }
}

/// A prefix of a split sums to no more than the whole split.
pub proof fn lemma_sum_entries_take_le(s: Seq<(String, u64)>, i: int)
    requires
        0 <= i <= s.len(),
    ensures
        0 <= sum_entries(s.take(i)) <= sum_entries(s),
    decreases s.len(),
{
    if s.len() == 0 {
        assert(s.take(i) =~= s);
    } else if i == s.len() {
        assert(s.take(i) =~= s);
        lemma_sum_entries_nonneg(s);
    } else {
        assert(s.take(i) =~= s.drop_last().take(i));
        lemma_sum_entries_take_le(s.drop_last(), i);
    }
}

/// Every single entry of a split is bounded by the split's sum.
pub proof fn lemma_entry_le_sum(s: Seq<(String, u64)>, i: int)
    requires
        0 <= i < s.len(),
    ensures
        s[i].1 <= sum_entries(s),
    decreases s.len(),
{
    lemma_sum_entries_nonneg(s);
    if i == s.len() - 1 {
        lemma_sum_entries_nonneg(s.drop_last());
    } else {
        lemma_entry_le_sum(s.drop_last(), i);
    }
}

proof fn lemma_sum_entries_nonneg(s: Seq<(String, u64)>)
    ensures
        sum_entries(s) >= 0,
    decreases s.len(),
{
    if s.len() > 0 {
        lemma_sum_entries_nonneg(s.drop_last());
    }
}

/// Updating one entry's amount moves the total, and that entry's
/// recipient total, by the difference, and no other recipient's total.
proof fn lemma_update_amount(s: Seq<(String, u64)>, i: int, v: u64, k: Seq<char>)
    requires
        0 <= i < s.len(),
    ensures
        sum_entries(s.update(i, (s[i].0, v))) == sum_entries(s) + v - s[i].1,
        key_amount(s.update(i, (s[i].0, v)), k) == key_amount(s, k) + (if s[i].0@ == k {
            v - s[i].1
        } else {
            0
        }),
    decreases s.len(),
{
    let t = s.update(i, (s[i].0, v));
    if i == s.len() - 1 {
        assert(t.drop_last() =~= s.drop_last());
    } else {
        assert(t.drop_last() =~= s.drop_last().update(i, (s[i].0, v)));
        lemma_update_amount(s.drop_last(), i, v, k);
    }
}

/// Computes the payment split of a beneficiary list: one output entry per
/// distinct recipient, holding the sum of that recipient's amounts.
/// Rejects the list exactly when some amount is negative; otherwise the
/// output's total equals the input's total — no amount is lost or gained.
pub fn calculate_payment_shares(beneficiaries: &Vec<(String, i64)>) -> (r: Result<
    PaymentSplit,
    ErrorResponse,
>)
    requires
        sum_clamped(beneficiaries@) <= u64::MAX,
    ensures
        (r is Err) <==> (exists|i: int|
            0 <= i < beneficiaries@.len() && beneficiaries@[i].1 < 0),
        r matches Ok(split) ==> {
            &&& split.well_formed()
            &&& split.total() == sum_amounts(beneficiaries@)
            &&& forall|k: Seq<char>|
                #[trigger] key_amount(split.entries@, k) == key_total(beneficiaries@, k)
            &&& forall|i: int|
                0 <= i < split.entries@.len() ==> has_key(
                    beneficiaries@,
                    #[trigger] split.entries@[i].0@,
                )
            &&& forall|i: int|
                0 <= i < beneficiaries@.len() ==> has_key(
                    split.entries@,
                    #[trigger] beneficiaries@[i].0@,
                )
        },
{
    let ghost input = beneficiaries@;
    let mut out: Vec<(String, u64)> = Vec::new();
    let mut i: usize = 0;
    while i < beneficiaries.len()
        invariant
            0 <= i <= input.len(),
            beneficiaries@ == input,
            sum_clamped(input) <= u64::MAX,
            forall|j: int| 0 <= j < i ==> input[j].1 >= 0,
            forall|p: int, q: int| 0 <= p < q < out@.len() ==> out@[p].0@ != out@[q].0@,
            sum_entries(out@) == sum_amounts(input.take(i as int)),
            forall|k: Seq<char>|
                #[trigger] key_amount(out@, k) == key_total(input.take(i as int), k),
            forall|j: int| 0 <= j < out@.len() ==> has_key(input.take(i as int), #[trigger] out@[j].0@),
            forall|j: int| 0 <= j < i ==> has_key(out@, #[trigger] input[j].0@),
        decreases input.len() - i,
    {
        let (address, amount) = (&beneficiaries[i].0, beneficiaries[i].1);
        if amount < 0 {
            return Err(ErrorResponse {
                message: {
                    let mut m: String = "negative amount for recipient ".to_owned();
                    m.append(address.as_str());
                    m
                },
            });
        }
        let amt: u64 = amount as u64;
        proof {
            assert(input.take(i + 1).drop_last() =~= input.take(i as int));
            assert(input.take(i + 1).last() == input[i as int]);
            lemma_sum_clamped_bounds_prefix(input, i + 1);
        }
        let mut found: bool = false;
        let mut at: usize = 0;
        let mut t: usize = 0;
        while !found && t < out.len()
            invariant
                0 <= t <= out@.len(),
                !found ==> forall|j: int| 0 <= j < t ==> out@[j].0@ != address@,
                found ==> 0 <= at < out@.len() && out@[at as int].0@ == address@,
            decreases out@.len() - t + (if found {
                0int
            } else {
                1int
            }),
        {
            if crate::strutil::str_eq(out[t].0.as_str(), address.as_str()) {
                found = true;
                at = t;
            } else {
                t += 1;
            }
        }
        if found {
            proof {
                lemma_entry_le_sum(out@, at as int);
                lemma_sum_clamped_bounds_prefix(input, i as int);
            }
            let updated: u64 = out[at].1 + amt;
            let ghost old_out = out@;
            let key = out[at].0.clone();
            out.set(at, (key, updated));
            proof {
                assert(out@ =~= old_out.update(at as int, (old_out[at as int].0, updated)));
                assert forall|p: int, q: int| 0 <= p < q < out@.len() implies out@[p].0@
                    != out@[q].0@ by {
                    assert(out@[p].0 == old_out[p].0);
                    assert(out@[q].0 == old_out[q].0);
                }
                assert forall|k: Seq<char>| #[trigger]
                    key_amount(out@, k) == key_total(input.take(i + 1), k) by {
                    lemma_update_amount(old_out, at as int, updated, k);
                }
                assert(sum_entries(out@) == sum_amounts(input.take(i + 1))) by {
                    lemma_update_amount(old_out, at as int, updated, Seq::<char>::empty());
                }
                assert forall|j: int| 0 <= j < out@.len() implies has_key(
                    input.take(i + 1),
                    #[trigger] out@[j].0@,
                ) by {
                    assert(out@[j].0@ == old_out[j].0@);
                    let w = choose|w: int|
                        0 <= w < input.take(i as int).len() && input.take(i as int)[w].0@
                            == old_out[j].0@;
                    assert(input.take(i + 1)[w].0@ == out@[j].0@);
                }
                assert forall|j: int| 0 <= j < i + 1 implies has_key(
                    out@,
                    #[trigger] input[j].0@,
                ) by {
                    if j < i {
                        let w = choose|w: int| 0 <= w < old_out.len() && old_out[w].0@ == input[j].0@;
                        assert(out@[w].0@ == input[j].0@);
                    } else {
                        assert(out@[at as int].0@ == input[j].0@);
                    }
                }
            }
        } else {
            let ghost old_out = out@;
            out.push((address.clone(), amt));
            proof {
                assert(out@.drop_last() =~= old_out);
                assert forall|p: int, q: int| 0 <= p < q < out@.len() implies out@[p].0@
                    != out@[q].0@ by {
                    if q < old_out.len() {
                        assert(out@[p].0 == old_out[p].0);
                        assert(out@[q].0 == old_out[q].0);
                    } else {
                        assert(out@[q].0@ == address@);
                        assert(out@[p].0@ != address@);
                    }
                }
                assert forall|k: Seq<char>| #[trigger]
                    key_amount(out@, k) == key_total(input.take(i + 1), k) by {
                    assert(key_amount(out@, k) == key_amount(old_out, k) + (if address@ == k {
                        amt as int
                    } else {
                        0
                    }));
                }
                assert forall|j: int| 0 <= j < out@.len() implies has_key(
                    input.take(i + 1),
                    #[trigger] out@[j].0@,
                ) by {
                    if j < old_out.len() {
                        let w = choose|w: int|
                            0 <= w < input.take(i as int).len() && input.take(i as int)[w].0@
                                == old_out[j].0@;
                        assert(input.take(i + 1)[w].0@ == out@[j].0@);
                    } else {
                        assert(input.take(i + 1)[i as int].0@ == out@[j].0@);
                    }
                }
                assert forall|j: int| 0 <= j < i + 1 implies has_key(
                    out@,
                    #[trigger] input[j].0@,
                ) by {
                    if j < i {
                        let w = choose|w: int| 0 <= w < old_out.len() && old_out[w].0@ == input[j].0@;
                        assert(out@[w].0@ == input[j].0@);
                    } else {
                        assert(out@[out@.len() - 1].0@ == input[j].0@);
                    }
                }
            }
        }
        i += 1;
    }
    proof {
        assert(input.take(i as int) =~= input);
    }
    Ok(PaymentSplit { entries: out })
}

} // verus!
