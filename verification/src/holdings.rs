//! Who has put in how much: an ordered list of `(address, amount)` entries.
//!
//! An address appears at most once in a well-kept list, and entries stay in
//! the order in which their addresses first contributed. That order is the
//! order in which refunds are later handed out.

use vstd::prelude::*;

verus! {

/// The mathematical content of a list of entries: address and amount, in order.
pub type Holdings = Seq<(Seq<char>, nat)>;

/// The holdings that a vector of entries stands for.
pub open spec fn holdings_of(entries: Seq<(String, u64)>) -> Holdings {
    Seq::new(entries.len(), |i: int| (entries[i].0@, entries[i].1 as nat))
}

/// The sum of all amounts.
pub open spec fn total(h: Holdings) -> nat
    decreases h.len(),
{
    if h.len() == 0 {
        0
    } else {
        total(h.drop_last()) + h.last().1
    }
}

/// No address has two entries.
pub open spec fn distinct(h: Holdings) -> bool {
    forall|i: int, j: int| 0 <= i < j < h.len() ==> h[i].0 != h[j].0
}

/// The index of the first entry of `who`, or `h.len()` if `who` has none.
pub open spec fn slot(h: Holdings, who: Seq<char>) -> int
    decreases h.len(),
{
    if h.len() == 0 || h[0].0 == who {
        0
    } else {
        1 + slot(h.drop_first(), who)
    }
}

/// `who` has an entry.
pub open spec fn holds(h: Holdings, who: Seq<char>) -> bool {
    slot(h, who) < h.len()
}

/// What `who` has put in so far; zero without an entry.
pub open spec fn amount_of(h: Holdings, who: Seq<char>) -> nat {
    if holds(h, who) {
        h[slot(h, who)].1
    } else {
        0
    }
}

/// The holdings after `who` puts in `amount` more: the entry of `who` grows
/// in place, or a new entry is added at the end.
pub open spec fn credited(h: Holdings, who: Seq<char>, amount: nat) -> Holdings {
    if holds(h, who) {
        h.update(slot(h, who), (who, h[slot(h, who)].1 + amount))
    } else {
        h.push((who, amount))
    }
}

/// `slot` is in range, points at an entry of `who` if there is one, and no
/// earlier entry belongs to `who`.
pub proof fn lemma_slot(h: Holdings, who: Seq<char>)
    ensures
        0 <= slot(h, who) <= h.len(),
        holds(h, who) ==> h[slot(h, who)].0 == who,
        forall|j: int| 0 <= j < slot(h, who) ==> h[j].0 != who,
    decreases h.len(),
{
    if h.len() == 0 || h[0].0 == who {
    } else {
        let rest = h.drop_first();
        lemma_slot(rest, who);
        assert forall|j: int| 0 <= j < slot(h, who) implies h[j].0 != who by {
            if j > 0 {
                assert(rest[j - 1] == h[j]);
            }
        }
    }
}

/// An index that points at the first entry of `who`, or past the end where
/// `who` has none, is `slot`.
pub proof fn lemma_slot_is(h: Holdings, who: Seq<char>, i: int)
    requires
        0 <= i <= h.len(),
        i < h.len() ==> h[i].0 == who,
        forall|j: int| 0 <= j < i ==> h[j].0 != who,
    ensures
        slot(h, who) == i,
{
    lemma_slot(h, who);
    let s = slot(h, who);
    if s < i {
        assert(h[s].0 != who);
    }
}

/// Adding an entry at the end adds its amount to the total.
pub proof fn lemma_total_push(h: Holdings, entry: (Seq<char>, nat))
    ensures
        total(h.push(entry)) == total(h) + entry.1,
{
    assert(h.push(entry).drop_last() =~= h);
}

/// The total of a prefix is at most the total of the whole.
pub proof fn lemma_total_prefix(h: Holdings, n: int)
    requires
        0 <= n <= h.len(),
    ensures
        total(h.take(n)) <= total(h),
    decreases h.len(),
{
    if n == h.len() {
        assert(h.take(n) =~= h);
    } else {
        lemma_total_prefix(h.drop_last(), n);
        assert(h.drop_last().take(n) =~= h.take(n));
    }
}

/// Replacing the amount of one entry changes the total by the difference.
pub proof fn lemma_total_update(h: Holdings, i: int, entry: (Seq<char>, nat))
    requires
        0 <= i < h.len(),
    ensures
        total(h.update(i, entry)) + h[i].1 == total(h) + entry.1,
    decreases h.len(),
{
    let u = h.update(i, entry);
    if i == h.len() - 1 {
        assert(u.drop_last() =~= h.drop_last());
    } else {
        lemma_total_update(h.drop_last(), i, entry);
        assert(u.drop_last() =~= h.drop_last().update(i, entry));
    }
}

/// No single amount exceeds the total.
pub proof fn lemma_amount_within_total(h: Holdings, who: Seq<char>)
    ensures
        amount_of(h, who) <= total(h),
{
    lemma_slot(h, who);
    if holds(h, who) {
        let i = slot(h, who);
        lemma_total_update(h, i, (who, 0nat));
    }
}

/// What a contribution does to the list, read as a mapping: the total grows
/// by the amount, the contributor's own amount grows by it, every other
/// address keeps its amount, nobody loses an entry, and distinct addresses
/// stay distinct.
pub proof fn lemma_credited(h: Holdings, who: Seq<char>, amount: nat)
    ensures
        total(credited(h, who, amount)) == total(h) + amount,
        distinct(h) ==> distinct(credited(h, who, amount)),
        holds(credited(h, who, amount), who),
        amount_of(credited(h, who, amount), who) == amount_of(h, who) + amount,
        forall|other: Seq<char>|
            other != who ==> holds(credited(h, who, amount), other) == holds(h, other)
                && amount_of(credited(h, who, amount), other) == amount_of(h, other),
{
    let c = credited(h, who, amount);
    let i = slot(h, who);
    lemma_slot(h, who);
    if holds(h, who) {
        lemma_total_update(h, i, (who, h[i].1 + amount));
    } else {
        lemma_total_push(h, (who, amount));
    }
    lemma_slot_is(c, who, i);
    assert forall|other: Seq<char>| other != who implies holds(c, other) == holds(h, other)
        && amount_of(c, other) == amount_of(h, other) by {
        let k = slot(h, other);
        lemma_slot(h, other);
        if k < h.len() {
            lemma_slot_is(c, other, k);
        } else {
            lemma_slot_is(c, other, c.len() as int);
        }
    }
}

/// The index of the entry of `who`, if there is one.
pub fn find_holder(book: &Vec<(String, u64)>, who: &String) -> (found: Option<usize>)
    ensures
        match found {
            Some(i) => holds(holdings_of(book@), who@) && i == slot(holdings_of(book@), who@),
            None => !holds(holdings_of(book@), who@),
        },
{
    let ghost h = holdings_of(book@);
    let mut i: usize = 0;
    while i < book.len()
        invariant
            i <= book.len(),
            h == holdings_of(book@),
            forall|j: int| 0 <= j < i ==> h[j].0 != who@,
        decreases book.len() - i,
    {
        if book[i].0 == *who {
            proof {
                lemma_slot_is(h, who@, i as int);
            }
            return Some(i);
        }
        i += 1;
    }
    proof {
        lemma_slot_is(h, who@, i as int);
    }
    None
}

/// Records that `who` puts in `amount` more.
pub fn credit(book: &mut Vec<(String, u64)>, who: &str, amount: u64)
    requires
        amount_of(holdings_of(old(book)@), who@) + amount <= u64::MAX,
    ensures
        holdings_of(final(book)@) == credited(holdings_of(old(book)@), who@, amount as nat),
{
    let ghost before = holdings_of(book@);
    let key = who.to_owned();
    match find_holder(book, &key) {
        Some(i) => {
            let held = book[i].1;
            book.set(i, (key, held + amount));
        },
        None => {
            book.push((key, amount));
        },
    }
    assert(holdings_of(book@) =~= credited(before, who@, amount as nat));
}

/// A copy of the list, entry by entry.
pub fn copy_entries(book: &Vec<(String, u64)>) -> (copy: Vec<(String, u64)>)
    ensures
        holdings_of(copy@) == holdings_of(book@),
{
    let mut copy: Vec<(String, u64)> = Vec::new();
    let mut i: usize = 0;
    while i < book.len()
        invariant
            i <= book.len(),
            holdings_of(copy@) == holdings_of(book@).take(i as int),
        decreases book.len() - i,
    {
        let ghost so_far = holdings_of(copy@);
        let address = book[i].0.clone();
        copy.push((address, book[i].1));
        assert(holdings_of(copy@) =~= so_far.push(holdings_of(book@)[i as int]));
        assert(holdings_of(copy@) =~= holdings_of(book@).take(i + 1));
        i += 1;
    }
    assert(holdings_of(book@).take(i as int) =~= holdings_of(book@));
    copy
}

/// Whether no address has two entries.
pub fn has_distinct_addresses(book: &Vec<(String, u64)>) -> (ok: bool)
    ensures
        ok == distinct(holdings_of(book@)),
{
    let ghost h = holdings_of(book@);
    let mut j: usize = 0;
    while j < book.len()
        invariant
            j <= book.len(),
            h == holdings_of(book@),
            forall|a: int, b: int| 0 <= a < b < j ==> h[a].0 != h[b].0,
        decreases book.len() - j,
    {
        let mut i: usize = 0;
        while i < j
            invariant
                i <= j < book.len(),
                h == holdings_of(book@),
                forall|a: int| 0 <= a < i ==> h[a].0 != h[j as int].0,
            decreases j - i,
        {
            if book[i].0 == book[j].0 {
                assert(h[i as int].0 == h[j as int].0);
                return false;
            }
            i += 1;
        }
        j += 1;
    }
    true
}

/// Whether the amounts add up to exactly `expected`.
pub fn sums_to(book: &Vec<(String, u64)>, expected: u64) -> (ok: bool)
    ensures
        ok == (total(holdings_of(book@)) == expected),
{
    let ghost h = holdings_of(book@);
    let mut sum: u64 = 0;
    let mut i: usize = 0;
    while i < book.len()
        invariant
            i <= book.len(),
            h == holdings_of(book@),
            sum == total(h.take(i as int)),
            sum <= expected,
        decreases book.len() - i,
    {
        let amount = book[i].1;
        proof {
            assert(h.take(i + 1) =~= h.take(i as int).push(h[i as int]));
            lemma_total_push(h.take(i as int), h[i as int]);
            lemma_total_prefix(h, i + 1);
        }
        if amount > expected - sum {
            return false;
        }
        sum += amount;
        i += 1;
    }
    assert(h.take(i as int) =~= h);
    sum == expected
}

} // verus!
