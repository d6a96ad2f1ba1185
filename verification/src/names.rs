//! The labels of the disassembly: every named position keeps its name,
//! made unique by a numbered suffix where an earlier position took it
//! already, and every other jump or call target gets a name from its bank
//! and offset.
use crate::dis::BANK_SIZE;
use crate::dump::{dec_text, push_dec, target_name, targets_view};
use crate::format::{hex4, hex_digit, push_hex4};
use vstd::prelude::*;
use vstd::string::*;

verus! {

/// The `i`-th spare name for `n`.
pub open spec fn candidate(n: Seq<char>, i: nat) -> Seq<char> {
    n + "_InternalLabel"@ + dec_text(i)
}

/// The first spare name for `n`, from the `i`-th on, that `used` does not
/// hold (there is one among the first `used.len() + 1`).
pub open spec fn free_from(used: Seq<Seq<char>>, n: Seq<char>, i: nat) -> Seq<char>
    decreases used.len() + 1 - i,
{
    if i > used.len() || !used.contains(candidate(n, i)) {
        candidate(n, i)
    } else {
        free_from(used, n, i + 1)
    }
}

/// `n` itself when `used` does not hold it, else its first free spare
/// name.
pub open spec fn unique_name(used: Seq<Seq<char>>, n: Seq<char>) -> Seq<char> {
    if !used.contains(n) {
        n
    } else {
        free_from(used, n, 0)
    }
}

/// The names in order, each made unique against the ones before it.
pub open spec fn uniquify(ns: Seq<Seq<char>>) -> Seq<Seq<char>>
    decreases ns.len(),
{
    if ns.len() == 0 {
        Seq::empty()
    } else {
        let prev = uniquify(ns.drop_last());
        prev.push(unique_name(prev, ns.last()))
    }
}

/// The name the last entry for position `k` gives it.
pub open spec fn last_name(named: Seq<(u64, Seq<char>)>, k: u64) -> Option<Seq<char>>
    decreases named.len(),
{
    if named.len() == 0 {
        None
    } else if named.last().0 == k {
        Some(named.last().1)
    } else {
        last_name(named.drop_last(), k)
    }
}

/// The texts of strings.
pub open spec fn strs(v: Seq<String>) -> Seq<Seq<char>> {
    v.map_values(|s: String| s@)
}

/// The names of named positions.
pub open spec fn names_of(named: Seq<(u64, String)>) -> Seq<Seq<char>> {
    named.map_values(|p: (u64, String)| p.1@)
}

/// The named positions with their names made unique.
pub open spec fn unique_named(named: Seq<(u64, String)>) -> Seq<(u64, Seq<char>)> {
    let u = uniquify(names_of(named));
    Seq::new(named.len(), |i: int| (named[i].0, u[i]))
}

/// The name of an unnamed target: its bank in decimal and its offset in
/// the bank in hex.
pub open spec fn bank_label(k: u64) -> Seq<char> {
    "Label_Bank"@ + dec_text((k / BANK_SIZE) as nat) + "_"@ + hex4((k % BANK_SIZE) as u16)
}

/// The name of position `k`: the last name given to it, else one made
/// from its place when it is a target.
pub open spec fn rom_target_name(named: Seq<(u64, String)>, jumps: Seq<u64>, k: u64) -> Option<Seq<char>> {
    match last_name(unique_named(named), k) {
        Some(n) => Some(n),
        None => if jumps.contains(k) {
            Some(bank_label(k))
        } else {
            None
        },
    }
}

proof fn lemma_digit(d: int)
    requires
        0 <= d < 10,
    ensures
        hex_digit(d).len() == 1,
        hex_digit(d)[0] == ('0' as int + d) as char,
{
    reveal_strlit("0");
    reveal_strlit("1");
    reveal_strlit("2");
    reveal_strlit("3");
    reveal_strlit("4");
    reveal_strlit("5");
    reveal_strlit("6");
    reveal_strlit("7");
    reveal_strlit("8");
    reveal_strlit("9");
}

proof fn lemma_dec_len(n: nat)
    ensures
        dec_text(n).len() >= 1,
        dec_text(n).len() == 1 <==> n < 10,
    decreases n,
{
    if n < 10 {
        lemma_digit(n as int);
    } else {
        lemma_dec_len(n / 10);
        lemma_digit((n % 10) as int);
    }
}

/// Different numbers have different decimal texts.
proof fn lemma_dec_injective(a: nat, b: nat)
    requires
        dec_text(a) == dec_text(b),
    ensures
        a == b,
    decreases a,
{
    lemma_dec_len(a);
    lemma_dec_len(b);
    if a < 10 {
        lemma_digit(a as int);
        lemma_digit(b as int);
    } else {
        let pa = dec_text(a / 10);
        let pb = dec_text(b / 10);
        lemma_digit((a % 10) as int);
        lemma_digit((b % 10) as int);
        let ta = dec_text(a);
        assert(ta == pa + hex_digit((a % 10) as int));
        assert(ta == pb + hex_digit((b % 10) as int));
        assert(ta[ta.len() - 1] == hex_digit((a % 10) as int)[0]);
        assert(ta[ta.len() - 1] == hex_digit((b % 10) as int)[0]);
        assert(pa =~= ta.subrange(0, ta.len() - 1));
        assert(pb =~= ta.subrange(0, ta.len() - 1));
        lemma_dec_injective(a / 10, b / 10);
    }
}

/// When the spare names `0..=i` of `n` are all taken, `used` holds more
/// than `i` names.
proof fn lemma_taken_bound(used: Seq<Seq<char>>, n: Seq<char>, i: nat)
    requires
        forall|j: nat| j <= i ==> used.contains(#[trigger] candidate(n, j)),
    ensures
        i < used.len(),
{
    reveal_strlit("_InternalLabel");
    let c = Seq::new(i + 1, |j: int| candidate(n, j as nat));
    assert forall|p: int, q: int| 0 <= p < c.len() && 0 <= q < c.len() && p != q implies c[p] != c[q] by {
        if c[p] == c[q] {
            let off: int = n.len() as int + 14;
            assert(c[p].subrange(off, c[p].len() as int) =~= dec_text(p as nat));
            assert(c[q].subrange(off, c[q].len() as int) =~= dec_text(q as nat));
            lemma_dec_injective(p as nat, q as nat);
        }
    }
    assert(c.no_duplicates());
    c.unique_seq_to_set();
    assert(c.to_set().subset_of(used.to_set())) by {
        assert forall|x: Seq<char>| c.to_set().contains(x) implies used.to_set().contains(x) by {
            let j = choose|j: int| 0 <= j < c.len() && c[j] == x;
            assert(used.contains(candidate(n, j as nat)));
        }
    }
    used.lemma_cardinality_of_set();
    vstd::seq_lib::seq_to_set_is_finite(used);
    vstd::set_lib::lemma_len_subset(c.to_set(), used.to_set());
}

/// The spare name `free_from` picks is free.
proof fn lemma_free_not_used(used: Seq<Seq<char>>, n: Seq<char>, i: nat)
    requires
        forall|j: nat| j < i ==> used.contains(#[trigger] candidate(n, j)),
    ensures
        !used.contains(free_from(used, n, i)),
    decreases used.len() + 1 - i,
{
    if i > used.len() {
        lemma_taken_bound(used, n, used.len());
    } else if used.contains(candidate(n, i)) {
        lemma_free_not_used(used, n, i + 1);
    }
}

/// Made unique, the names are as many as before and pairwise different.
pub proof fn lemma_uniquify_distinct(ns: Seq<Seq<char>>)
    ensures
        uniquify(ns).len() == ns.len(),
        uniquify(ns).no_duplicates(),
    decreases ns.len(),
{
    if ns.len() > 0 {
        let prev = uniquify(ns.drop_last());
        lemma_uniquify_distinct(ns.drop_last());
        let u = unique_name(prev, ns.last());
        if prev.contains(ns.last()) {
            lemma_free_not_used(prev, ns.last(), 0);
        }
        assert(!prev.contains(u));
        let all = prev.push(u);
        assert forall|a: int, b: int| 0 <= a < all.len() && 0 <= b < all.len() && a != b implies all[a] != all[b] by {
            if a == prev.len() {
                assert(prev[b] == all[b]);
            } else if b == prev.len() {
                assert(prev[a] == all[a]);
            }
        }
    }
}

/// Whether `used` holds `n`.
fn holds(used: &Vec<String>, n: &String) -> (r: bool)
    ensures
        r == strs(used@).contains(n@),
{
    let ghost u = strs(used@);
    let mut k: usize = 0;
    while k < used.len()
        invariant
            k <= used@.len(),
            u == strs(used@),
            forall|j: int| 0 <= j < k ==> u[j] != n@,
        decreases used@.len() - k,
    {
        if used[k] == *n {
            assert(u[k as int] == n@);
            return true;
        }
        k = k + 1;
    }
    false
}

/// `n`, or its first spare name that `used` does not hold.
fn make_unique(used: &Vec<String>, n: &String) -> (r: String)
    ensures
        r@ == unique_name(strs(used@), n@),
{
    let ghost u = strs(used@);
    if !holds(used, n) {
        return n.clone();
    }
    let n_used = used.len();
    let mut i: u64 = 0;
    loop
        invariant
            u == strs(used@),
            u.len() == n_used,
            u.contains(n@),
            i <= u.len(),
            u.len() == used@.len(),
            forall|j: nat| j < i ==> u.contains(#[trigger] candidate(n@, j)),
            free_from(u, n@, 0) == free_from(u, n@, i as nat),
        decreases u.len() + 1 - i,
    {
        let mut c = n.clone();
        c.append("_InternalLabel");
        push_dec(&mut c, i);
        assert(c@ == candidate(n@, i as nat));
        if !holds(used, &c) {
            return c;
        }
        proof {
            lemma_taken_bound(u, n@, i as nat);
        }
        i = i + 1;
    }
}

proof fn lemma_last_name_prepend(e: (u64, Seq<char>), s: Seq<(u64, Seq<char>)>, k: u64)
    ensures
        last_name(seq![e] + s, k) == (match last_name(s, k) {
            Some(n) => Some(n),
            None => if e.0 == k {
                Some(e.1)
            } else {
                None
            },
        }),
    decreases s.len(),
{
    let t = seq![e] + s;
    if s.len() > 0 {
        assert(t.drop_last() =~= seq![e] + s.drop_last());
        assert(t.last() == s.last());
        lemma_last_name_prepend(e, s.drop_last(), k);
        if s.last().0 != k {
            assert(last_name(t, k) == last_name(t.drop_last(), k));
            assert(last_name(s, k) == last_name(s.drop_last(), k));
        }
    } else {
        assert(t.last() == e);
        assert(t.drop_last() =~= Seq::<(u64, Seq<char>)>::empty());
        assert(last_name(t.drop_last(), k) is None);
    }
}

proof fn lemma_target_name_append(s: Seq<(u64, Seq<char>)>, e: (u64, Seq<char>), k: u64)
    ensures
        target_name(s.push(e), k) == (match target_name(s, k) {
            Some(n) => Some(n),
            None => if e.0 == k {
                Some(e.1)
            } else {
                None
            },
        }),
    decreases s.len(),
{
    if s.len() > 0 {
        assert(s.push(e).drop_first() =~= s.drop_first().push(e));
        assert(s.push(e)[0] == s[0]);
        lemma_target_name_append(s.drop_first(), e, k);
    } else {
        assert(s.push(e).drop_first() =~= s);
        assert(s.push(e)[0] == e);
    }
}

/// The names of the disassembly's labels: the positions of `named` (in
/// order, later entries for a position winning) with their names made
/// unique, then the targets in `jumps` that have none, named by
/// `bank_label`.
pub fn rom_targets(named: &Vec<(u64, String)>, jumps: &Vec<u64>) -> (r: Vec<(u64, String)>)
    ensures
        forall|k: u64| #[trigger] target_name(targets_view(r@), k) == rom_target_name(named@, jumps@, k),
{
    let ghost ns = names_of(named@);
    let mut used: Vec<String> = Vec::new();
    let mut uniq: Vec<(u64, String)> = Vec::new();
    let mut i: usize = 0;
    while i < named.len()
        invariant
            i <= named@.len(),
            ns == names_of(named@),
            used@.len() == i,
            uniq@.len() == i,
            strs(used@) == uniquify(ns.take(i as int)),
            forall|j: int| 0 <= j < i ==> (#[trigger] uniq@[j]).0 == named@[j].0 && uniq@[j].1@ == used@[j]@,
        decreases named@.len() - i,
    {
        let u = make_unique(&used, &named[i].1);
        let ghost prev_used = used@;
        proof {
            assert(ns.take(i + 1).drop_last() =~= ns.take(i as int));
            assert(ns.take(i + 1).last() == named@[i as int].1@);
        }
        used.push(u.clone());
        uniq.push((named[i].0, u));
        proof {
            assert(strs(used@) =~= strs(prev_used).push(used@[i as int]@));
        }
        i = i + 1;
    }
    let ghost un = unique_named(named@);
    proof {
        assert(ns.take(named@.len() as int) =~= ns);
        assert forall|j: int| 0 <= j < named@.len() implies (#[trigger] un[j]) == (uniq@[j].0, uniq@[j].1@) by {
            assert(strs(used@)[j] == used@[j]@);
        }
    }
    // Latest first, so that the first entry for a position is its last name.
    let mut out: Vec<(u64, String)> = Vec::new();
    let mut q: usize = uniq.len();
    proof {
        assert(un.subrange(named@.len() as int, named@.len() as int).len() == 0);
    }
    while q > 0
        invariant
            q <= uniq@.len(),
            uniq@.len() == named@.len(),
            un == unique_named(named@),
            un.len() == named@.len(),
            forall|j: int| 0 <= j < named@.len() ==> (#[trigger] un[j]) == (uniq@[j].0, uniq@[j].1@),
            forall|k: u64| #[trigger] target_name(targets_view(out@), k) == last_name(un.subrange(q as int, un.len() as int), k),
        decreases q,
    {
        q = q - 1;
        let ghost prev = out@;
        let e = (uniq[q].0, uniq[q].1.clone());
        out.push(e);
        proof {
            assert(targets_view(out@) =~= targets_view(prev).push((e.0, e.1@)));
            assert(un.subrange(q as int, un.len() as int) =~= seq![un[q as int]] + un.subrange(q + 1, un.len() as int));
            assert forall|k: u64| #[trigger] target_name(targets_view(out@), k) == last_name(un.subrange(q as int, un.len() as int), k) by {
                lemma_target_name_append(targets_view(prev), (e.0, e.1@), k);
                lemma_last_name_prepend(un[q as int], un.subrange(q + 1, un.len() as int), k);
            }
        }
    }
    assert(un.subrange(0, un.len() as int) =~= un);
    let mut k: usize = 0;
    assert(jumps@.take(0).len() == 0);
    while k < jumps.len()
        invariant
            k <= jumps@.len(),
            forall|x: u64| #[trigger] target_name(targets_view(out@), x) == (match last_name(un, x) {
                Some(n) => Some(n),
                None => if jumps@.take(k as int).contains(x) {
                    Some(bank_label(x))
                } else {
                    None
                },
            }),
        decreases jumps@.len() - k,
    {
        let x = jumps[k];
        let mut name = String::new();
        name.append("Label_Bank");
        push_dec(&mut name, x / BANK_SIZE);
        name.append("_");
        push_hex4(&mut name, (x % BANK_SIZE) as u16);
        assert(name@ =~= bank_label(x));
        let ghost prev = out@;
        out.push((x, name));
        proof {
            assert(targets_view(out@) =~= targets_view(prev).push((x, bank_label(x))));
            assert(jumps@.take(k + 1) =~= jumps@.take(k as int).push(x));
            assert forall|y: u64| #[trigger] target_name(targets_view(out@), y) == (match last_name(un, y) {
                Some(n) => Some(n),
                None => if jumps@.take(k + 1).contains(y) {
                    Some(bank_label(y))
                } else {
                    None
                },
            }) by {
                lemma_target_name_append(targets_view(prev), (x, bank_label(x)), y);
                assert(jumps@.take(k + 1)[k as int] == x);
                if jumps@.take(k + 1).contains(y) && !jumps@.take(k as int).contains(y) {
                    let w = choose|w: int| 0 <= w < k + 1 && #[trigger] jumps@.take(k + 1)[w] == y;
                    if w < k {
                        assert(jumps@.take(k as int)[w] == y);
                    }
                }
                if jumps@.take(k as int).contains(y) {
                    let w = choose|w: int| 0 <= w < k && #[trigger] jumps@.take(k as int)[w] == y;
                    assert(jumps@.take(k + 1)[w] == y);
                }
            }
        }
        k = k + 1;
    }
    assert(jumps@.take(jumps@.len() as int) =~= jumps@);
    out
}

} // verus!
