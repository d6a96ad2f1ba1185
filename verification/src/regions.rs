//! Splitting a bank of the ROM into the stretches the disassembly prints:
//! every start and end of a found stretch that falls inside the bank cuts
//! it, and each piece takes the kind of the stretches it overlaps.
use crate::dis::Section;
use vstd::prelude::*;

verus! {

/// Whether the stretch `r` overlaps `[s, e)`.
pub open spec fn overlaps(r: (u64, u64, Section), s: u64, e: u64) -> bool {
    r.0 < e && s < r.1
}

/// Whether the stretch `r`, overlapping the file range `[fs, fe)`, has `x`
/// as an end that falls inside it.
pub open spec fn cut_from(r: (u64, u64, Section), fs: u64, fe: u64, x: u64) -> bool {
    overlaps(r, fs, fe) && ((fs <= r.0 < fe && x == r.0) || (fs <= r.1 < fe && x == r.1))
}

/// The cut points of `[fs, fe)`: its two ends and the ends of the
/// stretches that fall inside it.
pub open spec fn is_cut(ranges: Seq<(u64, u64, Section)>, fs: u64, fe: u64, x: u64) -> bool {
    x == fs || x == fe || exists|k: int| 0 <= k < ranges.len() && cut_from(#[trigger] ranges[k], fs, fe, x)
}

/// One step of the choice of a piece's kind: the first overlapping kind,
/// unless a NOP run overlaps.
pub open spec fn fold_step(acc: Option<Section>, v: Section) -> Option<Section> {
    match acc {
        None => Some(v),
        Some(a) => if v == Section::Nop {
            Some(Section::Nop)
        } else {
            Some(a)
        },
    }
}

/// The kind chosen over the stretches that overlap `[s, e)`, in order.
pub open spec fn fold_sections(ranges: Seq<(u64, u64, Section)>, s: u64, e: u64) -> Option<Section>
    decreases ranges.len(),
{
    if ranges.len() == 0 {
        None
    } else {
        let acc = fold_sections(ranges.drop_last(), s, e);
        if overlaps(ranges.last(), s, e) {
            fold_step(acc, ranges.last().2)
        } else {
            acc
        }
    }
}

/// The kind of the piece `[s, e)`: data where no stretch overlaps it.
pub open spec fn section_of(ranges: Seq<(u64, u64, Section)>, s: u64, e: u64) -> Section {
    match fold_sections(ranges, s, e) {
        Some(x) => x,
        None => Section::Data,
    }
}

/// The piece `[s, e)` of the file range starting at `fs`, with the
/// addresses it occupies when the bank sits at `m` (the end saturating at
/// 0xFFFF) and its kind.
pub open spec fn region_at(ranges: Seq<(u64, u64, Section)>, fs: u64, m: u16, s: u64, e: u64) -> (
    u64,
    u64,
    u16,
    u16,
    Section,
) {
    let ms = s - fs + m;
    let me = if ms + (e - s) > 0xffff {
        0xffff
    } else {
        ms + (e - s)
    };
    (s, e, ms as u16, me as u16, section_of(ranges, s, e))
}

/// Strictly increasing.
pub open spec fn increasing(p: Seq<u64>) -> bool {
    forall|i: int, j: int| 0 <= i < j < p.len() ==> p[i] < p[j]
}

/// `r` splits `[fs, fe)` at its cut points: the pieces follow each other
/// from `fs` to `fe`, each as `region_at` gives it, and their starts with
/// `fe` are exactly the cut points.
pub open spec fn regions_ok(ranges: Seq<(u64, u64, Section)>, fs: u64, fe: u64, m: u16, r: Seq<(u64, u64, u16, u16, Section)>) -> bool {
    &&& r.len() >= 1
    &&& r[0].0 == fs
    &&& r.last().1 == fe
    &&& forall|i: int| 0 <= i < r.len() - 1 ==> #[trigger] r[i].1 == r[i + 1].0
    &&& forall|i: int| 0 <= i < r.len() ==> (#[trigger] r[i]) == region_at(ranges, fs, m, r[i].0, r[i].1)
    &&& forall|i: int| 0 <= i < r.len() ==> (#[trigger] r[i]).0 < r[i].1
    &&& forall|i: int| 0 <= i < r.len() ==> fs <= (#[trigger] r[i]).0 && r[i].1 <= fe
    &&& forall|x: u64| is_cut(ranges, fs, fe, x) <==> (x == fe || exists|i: int| 0 <= i < r.len() && (#[trigger] r[i]).0 == x)
}

/// Adds `x` to a strictly increasing list, keeping it so.
#[verifier::spinoff_prover]
fn insert_sorted(v: &mut Vec<u64>, x: u64)
    requires
        increasing(old(v)@),
    ensures
        increasing(final(v)@),
        forall|y: u64| final(v)@.contains(y) <==> (old(v)@.contains(y) || y == x),
{
    let ghost before = v@;
    let mut i: usize = 0;
    while i < v.len() && v[i] < x
        invariant
            v@ == before,
            i <= v@.len(),
            forall|j: int| 0 <= j < i ==> v@[j] < x,
        decreases v@.len() - i,
    {
        i = i + 1;
    }
    if i < v.len() && v[i] == x {
        return;
    }
    v.insert(i, x);
    proof {
        before.insert_ensures(i as int, x);
        let after = v@;
        assert(forall|j: int| i <= j < before.len() ==> before[j] > x) by {
            assert forall|j: int| i <= j < before.len() implies before[j] > x by {
                if j > i {
                    assert(before[i as int] < before[j]);
                }
            }
        }
        assert forall|a: int, b: int| 0 <= a < b < after.len() implies after[a] < after[b] by {
            if b < i {
            } else if b == i {
            } else if a < i {
                assert(after[b] == before[b - 1]);
            } else if a == i {
                assert(after[b] == before[b - 1]);
            } else {
                assert(after[a] == before[a - 1]);
                assert(after[b] == before[b - 1]);
            }
        }
        assert forall|y: u64| after.contains(y) implies (before.contains(y) || y == x) by {
            let j = choose|j: int| 0 <= j < after.len() && after[j] == y;
            if j < i {
                assert(before[j] == y);
            } else if j > i {
                assert(before[j - 1] == y);
            }
        }
        assert forall|y: u64| (before.contains(y) || y == x) implies after.contains(y) by {
            if y == x {
                assert(after[i as int] == y);
            } else {
                let j = choose|j: int| 0 <= j < before.len() && before[j] == y;
                if j < i {
                    assert(after[j] == y);
                } else {
                    assert(after[j + 1] == y);
                }
            }
        }
    }
}

/// The kind of the piece `[s, e)` (see `section_of`).
fn piece_section(ranges: &Vec<(u64, u64, Section)>, s: u64, e: u64) -> (r: Section)
    ensures
        r == section_of(ranges@, s, e),
{
    let mut acc: Option<Section> = None;
    let mut k: usize = 0;
    while k < ranges.len()
        invariant
            k <= ranges@.len(),
            acc == fold_sections(ranges@.subrange(0, k as int), s, e),
        decreases ranges@.len() - k,
    {
        assert(ranges@.subrange(0, k + 1).drop_last() =~= ranges@.subrange(0, k as int));
        let r = ranges[k];
        if r.0 < e && s < r.1 {
            acc = match acc {
                None => Some(r.2),
                Some(a) => if r.2 == Section::Nop {
                    Some(Section::Nop)
                } else {
                    Some(a)
                },
            };
        }
        k = k + 1;
    }
    assert(ranges@.subrange(0, ranges@.len() as int) =~= ranges@);
    match acc {
        Some(x) => x,
        None => Section::Data,
    }
}

/// Splits the file range `[fs, fe)` of a bank that sits at address `m` at
/// every cut point (see `is_cut`): the pieces follow each other from `fs`
/// to `fe`, each as `region_at` gives it.
#[verifier::spinoff_prover]
#[verifier::rlimit(60)]
pub fn byte_regions(fs: u64, fe: u64, m: u16, ranges: &Vec<(u64, u64, Section)>) -> (r: Vec<(u64, u64, u16, u16, Section)>)
    requires
        fs < fe,
        fe - fs <= 0xffff,
        fe - fs - 1 + m <= 0xffff,
    ensures
        regions_ok(ranges@, fs, fe, m, r@),
{
    let mut pts: Vec<u64> = vec![fs, fe];
    assert(pts@.contains(fs) && pts@.contains(fe)) by {
        assert(pts@[0] == fs && pts@[1] == fe);
    }
    let mut k: usize = 0;
    while k < ranges.len()
        invariant
            k <= ranges@.len(),
            fs < fe,
            increasing(pts@),
            forall|y: u64|
                pts@.contains(y) <==> (y == fs || y == fe || exists|j: int| 0 <= j < k && cut_from(#[trigger] ranges@[j], fs, fe, y)),
        decreases ranges@.len() - k,
    {
        let r = ranges[k];
        let ghost prev = pts@;
        if r.0 < fe && fs < r.1 {
            if fs <= r.0 && r.0 < fe {
                insert_sorted(&mut pts, r.0);
            }
            let ghost mid = pts@;
            if fs <= r.1 && r.1 < fe {
                insert_sorted(&mut pts, r.1);
            }
            assert forall|y: u64|
                pts@.contains(y) <==> (y == fs || y == fe || exists|j: int| 0 <= j < k + 1 && cut_from(#[trigger] ranges@[j], fs, fe, y)) by {
                if exists|j: int| 0 <= j < k + 1 && cut_from(#[trigger] ranges@[j], fs, fe, y) {
                    let j = choose|j: int| 0 <= j < k + 1 && cut_from(#[trigger] ranges@[j], fs, fe, y);
                    if j < k {
                        assert(prev.contains(y));
                    }
                }
                if pts@.contains(y) && !prev.contains(y) {
                    assert(cut_from(ranges@[k as int], fs, fe, y));
                }
            }
        } else {
            assert forall|y: u64|
                pts@.contains(y) <==> (y == fs || y == fe || exists|j: int| 0 <= j < k + 1 && cut_from(#[trigger] ranges@[j], fs, fe, y)) by {
                if exists|j: int| 0 <= j < k + 1 && cut_from(#[trigger] ranges@[j], fs, fe, y) {
                    let j = choose|j: int| 0 <= j < k + 1 && cut_from(#[trigger] ranges@[j], fs, fe, y);
                    assert(j < k);
                }
            }
        }
        k = k + 1;
    }
    // Every point lies in [fs, fe], so the list runs from fs to fe.
    proof {
        assert forall|i: int| 0 <= i < pts@.len() implies fs <= #[trigger] pts@[i] <= fe by {
            assert(pts@.contains(pts@[i]));
        }
        assert(pts@.contains(fs));
        assert(pts@.contains(fe));
        let a = choose|j: int| 0 <= j < pts@.len() && pts@[j] == fs;
        if a > 0 {
            assert(pts@[0] < pts@[a]);
        }
        let b = choose|j: int| 0 <= j < pts@.len() && pts@[j] == fe;
        if b < pts@.len() - 1 {
            assert(pts@[b] < pts@[pts@.len() - 1]);
        }
        assert(pts@[0] == fs && pts@[pts@.len() - 1] == fe);
    }
    let mut out: Vec<(u64, u64, u16, u16, Section)> = Vec::new();
    let n = pts.len() - 1;
    let mut i: usize = 0;
    while i < n
        invariant
            n + 1 == pts@.len(),
            i <= n,
            increasing(pts@),
            fs < fe,
            fe - fs <= 0xffff,
            fe - fs - 1 + m <= 0xffff,
            forall|q: int| 0 <= q < pts@.len() ==> fs <= #[trigger] pts@[q] <= fe,
            out@.len() == i,
            forall|q: int| 0 <= q < i ==> (#[trigger] out@[q]) == region_at(ranges@, fs, m, pts@[q], pts@[q + 1]),
        decreases n - i,
    {
        let s = pts[i];
        let e = pts[i + 1];
        assert(s < e);
        let typ = piece_section(ranges, s, e);
        let ms: u16 = (s - fs) as u16 + m;
        let me: u16 = ms.saturating_add((e - s) as u16);
        out.push((s, e, ms, me, typ));
        i = i + 1;
    }
    proof {
        assert forall|x: u64| is_cut(ranges@, fs, fe, x) <==> (x == fe || exists|q: int| 0 <= q < out@.len() && (#[trigger] out@[q]).0 == x) by {
            if is_cut(ranges@, fs, fe, x) {
                assert(pts@.contains(x));
                let j = choose|j: int| 0 <= j < pts@.len() && pts@[j] == x;
                if j < n {
                    assert(out@[j].0 == x);
                }
            }
            if exists|q: int| 0 <= q < out@.len() && (#[trigger] out@[q]).0 == x {
                let q = choose|q: int| 0 <= q < out@.len() && (#[trigger] out@[q]).0 == x;
                assert(pts@[q] == x);
                assert(pts@.contains(x));
            }
        }
        assert forall|q: int| 0 <= q < out@.len() - 1 implies #[trigger] out@[q].1 == out@[q + 1].0 by {
            assert(out@[q] == region_at(ranges@, fs, m, pts@[q], pts@[q + 1]));
            assert(out@[q + 1] == region_at(ranges@, fs, m, pts@[q + 1], pts@[q + 2]));
        }
        assert forall|q: int| 0 <= q < out@.len() implies (#[trigger] out@[q]).0 < out@[q].1 by {
            assert(out@[q] == region_at(ranges@, fs, m, pts@[q], pts@[q + 1]));
        }
        assert forall|q: int| 0 <= q < out@.len() implies fs <= (#[trigger] out@[q]).0 && out@[q].1 <= fe by {
            assert(out@[q] == region_at(ranges@, fs, m, pts@[q], pts@[q + 1]));
        }
        assert(out@[0] == region_at(ranges@, fs, m, pts@[0], pts@[1]));
        assert(out@[n - 1] == region_at(ranges@, fs, m, pts@[n - 1], pts@[n as int]));
    }
    out
}

} // verus!
