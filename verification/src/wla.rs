//! Symbol files of the WLA-DX assembler: `[labels]` sections of
//! `BB:AAAA name` lines and `[memmap]` sections of `BB AAAA` lines, with
//! comments (`;`), blank lines and other sections skipped.
use vstd::prelude::*;

verus! {

/// The labels (by bank and address) and the slot addresses of banks that a
/// symbol file gives; later entries replace earlier ones.
pub struct WlaSym {
    labels: Vec<(u8, u16, Vec<u8>)>,
    memmap: Vec<(u8, u16)>,
}

pub open spec fn is_hex(c: u8) -> bool {
    (48 <= c <= 57) || (97 <= c <= 102) || (65 <= c <= 70)
}

pub open spec fn hex_val(c: u8) -> int {
    if 48 <= c <= 57 {
        c - 48
    } else if 97 <= c <= 102 {
        c - 87
    } else {
        c - 55
    }
}

/// ASCII whitespace: space, tab, newline, vertical tab, form feed, return.
pub open spec fn is_ws(c: u8) -> bool {
    c == 32 || (9 <= c <= 13)
}

pub open spec fn is_nl(c: u8) -> bool {
    c == 10
}

/// The index of the first newline at or after `i` (the length if none).
pub open spec fn line_end(s: Seq<u8>, i: int) -> int
    decreases s.len() - i,
{
    if i >= s.len() || i < 0 {
        if i < 0 { 0 } else { s.len() as int }
    } else if is_nl(s[i]) {
        i
    } else {
        line_end(s, i + 1)
    }
}

/// The index after the whitespace run at `i` (newlines included when
/// `nl`).
pub open spec fn ws_end(s: Seq<u8>, i: int, nl: bool) -> int
    decreases s.len() - i,
{
    if i >= s.len() || i < 0 {
        if i < 0 { 0 } else { s.len() as int }
    } else if is_ws(s[i]) && (nl || !is_nl(s[i])) {
        ws_end(s, i + 1, nl)
    } else {
        i
    }
}

/// Two hex digits at `i`.
pub open spec fn hex2_at(s: Seq<u8>, i: int) -> Option<u8> {
    if 0 <= i && i + 2 <= s.len() && is_hex(s[i]) && is_hex(s[i + 1]) {
        Some((hex_val(s[i]) * 16 + hex_val(s[i + 1])) as u8)
    } else {
        None
    }
}

/// Four hex digits at `i`.
pub open spec fn hex4_at(s: Seq<u8>, i: int) -> Option<u16> {
    match (hex2_at(s, i), hex2_at(s, i + 2)) {
        (Some(h), Some(l)) => Some((h * 256 + l) as u16),
        _ => None,
    }
}

/// A label line at `i`: `BB:AAAA name`, the name running to the end of the
/// line; gives the bank, address, name and where the name ends.
pub open spec fn label_at(s: Seq<u8>, i: int) -> Option<(u8, u16, Seq<u8>, int)> {
    match (hex2_at(s, i), hex4_at(s, i + 3)) {
        (Some(b), Some(a)) => if i + 8 <= s.len() && s[i + 2] == 58 && s[i + 7] == 32 {
            let e = line_end(s, i + 8);
            Some((b, a, s.subrange(i + 8, e), e))
        } else {
            None
        },
        _ => None,
    }
}

/// A memory map line at `i`: `BB AAAA`; gives the bank and slot address.
pub open spec fn memmap_at(s: Seq<u8>, i: int) -> Option<(u8, u16)> {
    match (hex2_at(s, i), hex4_at(s, i + 3)) {
        (Some(b), Some(a)) => if i + 3 <= s.len() && s[i + 2] == 32 {
            Some((b, a))
        } else {
            None
        },
        _ => None,
    }
}

/// Where a comment or blank stretch at `i` ends: whitespace (newlines too)
/// then `;` and the rest of the line; failing that, whitespace other than
/// newlines (possibly none).
pub open spec fn extra_end(s: Seq<u8>, i: int) -> int {
    let w = ws_end(s, i, true);
    if w < s.len() && s[w] == 59 {
        line_end(s, w + 1)
    } else {
        ws_end(s, i, false)
    }
}

/// A section header `[name]` at `i`: the name and the index after `]`.
pub open spec fn header_at(s: Seq<u8>, i: int) -> Option<(Seq<u8>, int)> {
    if 0 <= i < s.len() && s[i] == 91 {
        let e = close_at(s, i + 1);
        if e < s.len() {
            Some((s.subrange(i + 1, e), e + 1))
        } else {
            None
        }
    } else {
        None
    }
}

/// The index of the first `]` at or after `i` (the length if none).
pub open spec fn close_at(s: Seq<u8>, i: int) -> int
    decreases s.len() - i,
{
    if i >= s.len() || i < 0 {
        if i < 0 { 0 } else { s.len() as int }
    } else if s[i] == 93 {
        i
    } else {
        close_at(s, i + 1)
    }
}

/// A map with the pair inserted, replacing an earlier entry.
pub open spec fn put<K, V>(m: Map<K, V>, k: K, v: V) -> Map<K, V> {
    m.insert(k, v)
}

/// The lines of a `[labels]` section from `i`: each a label or a comment or
/// blank stretch, ended by a newline; gives the labels added and where the
/// section ends.
pub open spec fn labels_from(s: Seq<u8>, i: int, m: Map<(u8, u16), Seq<u8>>) -> (Map<(u8, u16), Seq<u8>>, int)
    decreases s.len() - i,
{
    if i < 0 || i >= s.len() {
        (m, i)
    } else {
        match label_at(s, i) {
            Some((b, a, name, e)) => if e < s.len() && is_nl(s[e]) && e >= i {
                labels_from(s, e + 1, put(m, (b, a), name))
            } else {
                (m, i)
            },
            None => {
                let e = extra_end(s, i);
                if e < s.len() && is_nl(s[e]) && e >= i {
                    labels_from(s, e + 1, m)
                } else {
                    (m, i)
                }
            },
        }
    }
}

/// The lines of a `[memmap]` section from `i`.
pub open spec fn memmap_from(s: Seq<u8>, i: int, m: Map<u8, u16>) -> (Map<u8, u16>, int)
    decreases s.len() - i,
{
    if i < 0 || i >= s.len() {
        (m, i)
    } else {
        match memmap_at(s, i) {
            Some((b, a)) => if i + 7 < s.len() && is_nl(s[i + 7]) {
                memmap_from(s, i + 8, put(m, b, a))
            } else {
                (m, i)
            },
            None => {
                let e = extra_end(s, i);
                if e < s.len() && is_nl(s[e]) && e >= i {
                    memmap_from(s, e + 1, m)
                } else {
                    (m, i)
                }
            },
        }
    }
}

/// The lines of any other section from `i`: whole lines up to the next
/// header line.
pub open spec fn unknown_from(s: Seq<u8>, i: int) -> int
    decreases s.len() - i,
{
    if i < 0 || i >= s.len() || header_at(s, i) is Some {
        i
    } else {
        let e = line_end(s, i);
        if e < s.len() && e >= i {
            unknown_from(s, e + 1)
        } else {
            i
        }
    }
}

/// The header of the next section from `i`, after comment and blank lines.
pub open spec fn header_search(s: Seq<u8>, i: int) -> Option<(Seq<u8>, int)>
    decreases s.len() - i,
{
    if i < 0 || i > s.len() {
        None
    } else {
        match header_at(s, i) {
            Some(h) => Some(h),
            None => {
                let e = extra_end(s, i);
                if e < s.len() && is_nl(s[e]) && e >= i {
                    header_search(s, e + 1)
                } else {
                    None
                }
            },
        }
    }
}

pub open spec fn labels_name() -> Seq<u8> {
    seq![108u8, 97, 98, 101, 108, 115]
}

pub open spec fn memmap_name() -> Seq<u8> {
    seq![109u8, 101, 109, 109, 97, 112]
}

/// The section from `i`: its header (then a newline) and its lines; gives
/// the maps with its entries added and where it ends.
pub open spec fn section_at(s: Seq<u8>, i: int, lm: Map<(u8, u16), Seq<u8>>, mm: Map<u8, u16>) -> Option<(Map<(u8, u16), Seq<u8>>, Map<u8, u16>, int)> {
    match header_search(s, i) {
        Some((name, after)) => if 0 <= after < s.len() && is_nl(s[after]) {
            if name == labels_name() {
                let (l2, e) = labels_from(s, after + 1, lm);
                Some((l2, mm, e))
            } else if name == memmap_name() {
                let (m2, e) = memmap_from(s, after + 1, mm);
                Some((lm, m2, e))
            } else {
                Some((lm, mm, unknown_from(s, after + 1)))
            }
        } else {
            None
        },
        None => None,
    }
}

/// Sections from `i` on, as long as they parse: the maps they give and
/// where the parse stops.
pub open spec fn sections_from(s: Seq<u8>, i: int, lm: Map<(u8, u16), Seq<u8>>, mm: Map<u8, u16>) -> (Map<(u8, u16), Seq<u8>>, Map<u8, u16>, int)
    decreases s.len() - i,
{
    if i < 0 || i > s.len() {
        (lm, mm, i)
    } else {
        match section_at(s, i, lm, mm) {
            Some((l2, m2, j)) => if i < j <= s.len() {
                sections_from(s, j, l2, m2)
            } else {
                (lm, mm, i)
            },
            None => (lm, mm, i),
        }
    }
}

/// The map a list of labels gives, later ones replacing earlier ones.
pub open spec fn label_map(v: Seq<(u8, u16, Vec<u8>)>) -> Map<(u8, u16), Seq<u8>>
    decreases v.len(),
{
    if v.len() == 0 {
        Map::empty()
    } else {
        let last = v.last();
        label_map(v.drop_last()).insert((last.0, last.1), last.2@)
    }
}

/// The map a list of bank slots gives, later ones replacing earlier ones.
pub open spec fn memmap_map(v: Seq<(u8, u16)>) -> Map<u8, u16>
    decreases v.len(),
{
    if v.len() == 0 {
        Map::empty()
    } else {
        let last = v.last();
        memmap_map(v.drop_last()).insert(last.0, last.1)
    }
}

impl WlaSym {
    pub closed spec fn labels(&self) -> Map<(u8, u16), Seq<u8>> {
        label_map(self.labels@)
    }

    pub closed spec fn memmap(&self) -> Map<u8, u16> {
        memmap_map(self.memmap@)
    }

    /// No labels and no slots.
    pub fn new() -> (r: WlaSym)
        ensures
            r.labels() == Map::<(u8, u16), Seq<u8>>::empty(),
            r.memmap() == Map::<u8, u16>::empty(),
    {
        WlaSym { labels: Vec::new(), memmap: Vec::new() }
    }

    fn add_label(&mut self, bank: u8, addr: u16, name: Vec<u8>)
        ensures
            final(self).labels() == old(self).labels().insert((bank, addr), name@),
            final(self).memmap() == old(self).memmap(),
    {
        let ghost v0 = self.labels@;
        self.labels.push((bank, addr, name));
        assert(self.labels@.drop_last() =~= v0);
    }

    fn add_slot(&mut self, bank: u8, addr: u16)
        ensures
            final(self).memmap() == old(self).memmap().insert(bank, addr),
            final(self).labels() == old(self).labels(),
    {
        let ghost v0 = self.memmap@;
        self.memmap.push((bank, addr));
        assert(self.memmap@.drop_last() =~= v0);
    }

    /// Adds the labels and slots of `other`, which replace those of `self`
    /// for the same keys.
    pub fn merge(&mut self, other: WlaSym)
        ensures
            final(self).labels() == old(self).labels().union_prefer_right(other.labels()),
            final(self).memmap() == old(self).memmap().union_prefer_right(other.memmap()),
    {
        let mut k: usize = 0;
        let ghost l0 = self.labels();
        let ghost m0 = self.memmap();
        assert(l0 =~= l0.union_prefer_right(label_map(other.labels@.subrange(0, 0))));
        assert(m0 =~= m0.union_prefer_right(memmap_map(other.memmap@.subrange(0, 0))));
        while k < other.labels.len()
            invariant
                k <= other.labels@.len(),
                self.labels() == l0.union_prefer_right(label_map(other.labels@.subrange(0, k as int))),
                self.memmap() == m0,
            decreases other.labels@.len() - k,
        {
            let (b, a, ref name) = other.labels[k];
            let n = name.clone();
            assert(n@ == name@);
            self.add_label(b, a, n);
            assert(other.labels@.subrange(0, k + 1).drop_last() =~= other.labels@.subrange(0, k as int));
            assert(self.labels() =~= l0.union_prefer_right(label_map(other.labels@.subrange(0, k + 1))));
            k = k + 1;
        }
        assert(other.labels@.subrange(0, other.labels@.len() as int) =~= other.labels@);
        let mut j: usize = 0;
        while j < other.memmap.len()
            invariant
                j <= other.memmap@.len(),
                self.memmap() == m0.union_prefer_right(memmap_map(other.memmap@.subrange(0, j as int))),
                self.labels() == l0.union_prefer_right(other.labels()),
            decreases other.memmap@.len() - j,
        {
            let (b, a) = other.memmap[j];
            self.add_slot(b, a);
            assert(other.memmap@.subrange(0, j + 1).drop_last() =~= other.memmap@.subrange(0, j as int));
            assert(self.memmap() =~= m0.union_prefer_right(memmap_map(other.memmap@.subrange(0, j + 1))));
            j = j + 1;
        }
        assert(other.memmap@.subrange(0, other.memmap@.len() as int) =~= other.memmap@);
    }

    /// The labels in the order they were read.
    pub closed spec fn entries_view(&self) -> Seq<(u8, u16, Vec<u8>)> {
        self.labels@
    }

    /// The labels as listed, later ones replacing earlier ones with the
    /// same bank and address.
    pub fn entries(&self) -> (r: &Vec<(u8, u16, Vec<u8>)>)
        ensures
            r@ == self.entries_view(),
            label_map(r@) == self.labels(),
    {
        &self.labels
    }

    /// The slot address of a bank: the one the map gives, else 0 for bank 0
    /// and 0x4000 for the others.
    pub fn mem_map(&self, bank: u8) -> (r: u16)
        ensures
            r == (if self.memmap().contains_key(bank) {
                self.memmap()[bank]
            } else if bank == 0 {
                0
            } else {
                0x4000
            }),
    {
        let mut k: usize = self.memmap.len();
        assert(self.memmap@.subrange(0, k as int) =~= self.memmap@);
        while k > 0
            invariant
                k <= self.memmap@.len(),
                self.memmap().contains_key(bank) == memmap_map(self.memmap@.subrange(0, k as int)).contains_key(bank),
                self.memmap().contains_key(bank) ==> self.memmap()[bank] == memmap_map(self.memmap@.subrange(0, k as int))[bank],
            decreases k,
        {
            let (b, a) = self.memmap[k - 1];
            assert(self.memmap@.subrange(0, k as int).drop_last() =~= self.memmap@.subrange(0, k - 1));
            if b == bank {
                return a;
            }
            k = k - 1;
        }
        if bank == 0 {
            0
        } else {
            0x4000
        }
    }

    /// The name of the label at a bank and address.
    pub fn label(&self, bank: u8, addr: u16) -> (r: Option<&Vec<u8>>)
        ensures
            match r {
                Some(n) => self.labels().contains_key((bank, addr)) && self.labels()[(bank, addr)] == n@,
                None => !self.labels().contains_key((bank, addr)),
            },
    {
        let mut k: usize = self.labels.len();
        assert(self.labels@.subrange(0, k as int) =~= self.labels@);
        while k > 0
            invariant
                k <= self.labels@.len(),
                self.labels().contains_key((bank, addr)) == label_map(self.labels@.subrange(0, k as int)).contains_key((bank, addr)),
                self.labels().contains_key((bank, addr)) ==> self.labels()[(bank, addr)] == label_map(self.labels@.subrange(0, k as int))[(bank, addr)],
            decreases k,
        {
            let (b, a, ref name) = self.labels[k - 1];
            assert(self.labels@.subrange(0, k as int).drop_last() =~= self.labels@.subrange(0, k - 1));
            if b == bank && a == addr {
                return Some(name);
            }
            k = k - 1;
        }
        None
    }
}

fn line_end_exec(s: &[u8], i: usize) -> (r: usize)
    requires
        i <= s@.len(),
    ensures
        r == line_end(s@, i as int),
        i <= r <= s@.len(),
{
    let mut k = i;
    while k < s.len() && s[k] != 10
        invariant
            i <= k <= s@.len(),
            line_end(s@, i as int) == line_end(s@, k as int),
        decreases s@.len() - k,
    {
        k = k + 1;
    }
    k
}

fn ws_end_exec(s: &[u8], i: usize, nl: bool) -> (r: usize)
    requires
        i <= s@.len(),
    ensures
        r == ws_end(s@, i as int, nl),
        i <= r <= s@.len(),
{
    let mut k = i;
    while k < s.len() && (s[k] == 32 || (9 <= s[k] && s[k] <= 13)) && (nl || s[k] != 10)
        invariant
            i <= k <= s@.len(),
            ws_end(s@, i as int, nl) == ws_end(s@, k as int, nl),
        decreases s@.len() - k,
    {
        k = k + 1;
    }
    k
}

fn close_exec(s: &[u8], i: usize) -> (r: usize)
    requires
        i <= s@.len(),
    ensures
        r == close_at(s@, i as int),
        i <= r <= s@.len(),
{
    let mut k = i;
    while k < s.len() && s[k] != 93
        invariant
            i <= k <= s@.len(),
            close_at(s@, i as int) == close_at(s@, k as int),
        decreases s@.len() - k,
    {
        k = k + 1;
    }
    k
}

fn hex_digit_exec(c: u8) -> (r: Option<u8>)
    ensures
        r is Some <==> is_hex(c),
        r matches Some(v) ==> v == hex_val(c) && v < 16,
{
    if 48 <= c && c <= 57 {
        Some(c - 48)
    } else if 97 <= c && c <= 102 {
        Some(c - 87)
    } else if 65 <= c && c <= 70 {
        Some(c - 55)
    } else {
        None
    }
}

fn hex2_exec(s: &[u8], i: usize) -> (r: Option<u8>)
    ensures
        r == hex2_at(s@, i as int),
{
    if i <= s.len() && s.len() - i >= 2 {
        match (hex_digit_exec(s[i]), hex_digit_exec(s[i + 1])) {
            (Some(h), Some(l)) => Some(h * 16 + l),
            _ => None,
        }
    } else {
        None
    }
}

fn hex4_exec(s: &[u8], i: usize) -> (r: Option<u16>)
    requires
        i <= s@.len(),
    ensures
        r == hex4_at(s@, i as int),
{
    let hi = hex2_exec(s, i);
    let lo = if s.len() - i >= 2 { hex2_exec(s, i + 2) } else { None };
    proof {
        if i + 2 > s@.len() {
            assert(hex2_at(s@, i + 2) is None);
        }
    }
    match (hi, lo) {
        (Some(h), Some(l)) => Some(h as u16 * 256 + l as u16),
        _ => None,
    }
}

/// A label line at `i`: bank, address and the end of its name.
pub fn label(s: &[u8], i: usize) -> (r: Option<(u8, u16, usize)>)
    requires
        i <= s@.len(),
    ensures
        r is None <==> label_at(s@, i as int) is None,
        r matches Some((b, a, e)) ==> i + 8 <= e <= s@.len() && label_at(s@, i as int) == Some(
            (b, a, s@.subrange(i + 8, e as int), e as int),
        ),
{
    let b = hex2_exec(s, i);
    let a = if s.len() - i >= 3 { hex4_exec(s, i + 3) } else { None };
    proof {
        if i + 3 > s@.len() {
            assert(hex4_at(s@, i + 3) is None);
        }
    }
    match (b, a) {
        (Some(b), Some(a)) => {
            if s.len() - i >= 8 && s[i + 2] == 58 && s[i + 7] == 32 {
                let e = line_end_exec(s, i + 8);
                Some((b, a, e))
            } else {
                None
            }
        },
        _ => None,
    }
}

/// A memory map line at `i`: bank and slot address.
pub fn memmap(s: &[u8], i: usize) -> (r: Option<(u8, u16)>)
    requires
        i <= s@.len(),
    ensures
        r == memmap_at(s@, i as int),
{
    let b = hex2_exec(s, i);
    let a = if s.len() - i >= 3 { hex4_exec(s, i + 3) } else { None };
    proof {
        if i + 3 > s@.len() {
            assert(hex4_at(s@, i + 3) is None);
        }
    }
    match (b, a) {
        (Some(b), Some(a)) => {
            if s.len() - i >= 3 && s[i + 2] == 32 {
                Some((b, a))
            } else {
                None
            }
        },
        _ => None,
    }
}

fn extra_end_exec(s: &[u8], i: usize) -> (r: usize)
    requires
        i <= s@.len(),
    ensures
        r == extra_end(s@, i as int),
        r <= s@.len(),
{
    let w = ws_end_exec(s, i, true);
    if w < s.len() && s[w] == 59 {
        line_end_exec(s, w + 1)
    } else {
        ws_end_exec(s, i, false)
    }
}

/// A comment at `i`: whitespace (newlines too), `;` and the rest of the
/// line; gives where it ends.
pub fn comment(s: &[u8], i: usize) -> (r: Option<usize>)
    requires
        i <= s@.len(),
    ensures
        ({
            let w = ws_end(s@, i as int, true);
            if w < s@.len() && s@[w] == 59 {
                r == Some(line_end(s@, w + 1) as usize)
            } else {
                r is None
            }
        }),
{
    let w = ws_end_exec(s, i, true);
    if w < s.len() && s[w] == 59 {
        Some(line_end_exec(s, w + 1))
    } else {
        None
    }
}

/// A section header at `i`: where its name starts and ends, and the index
/// after `]`.
fn header_exec(s: &[u8], i: usize) -> (r: Option<(usize, usize)>)
    requires
        i <= s@.len(),
    ensures
        match header_at(s@, i as int) {
            Some((name, after)) => r matches Some((e, a)) && a == after && e + 1 == a && name == s@.subrange(i + 1, e as int) && a <= s@.len(),
            None => r is None,
        },
        r matches Some((e, a)) ==> i < s@.len() && i + 1 <= e && e < a <= s@.len(),
{
    if i < s.len() && s[i] == 91 {
        let e = close_exec(s, i + 1);
        if e < s.len() {
            Some((e, e + 1))
        } else {
            None
        }
    } else {
        None
    }
}

fn copy_range(s: &[u8], a: usize, b: usize) -> (r: Vec<u8>)
    requires
        a <= b <= s@.len(),
    ensures
        r@ == s@.subrange(a as int, b as int),
{
    let mut v: Vec<u8> = Vec::new();
    let mut k = a;
    while k < b
        invariant
            a <= k <= b <= s@.len(),
            v@ == s@.subrange(a as int, k as int),
        decreases b - k,
    {
        v.push(s[k]);
        k = k + 1;
        assert(v@ =~= s@.subrange(a as int, k as int));
    }
    v
}

fn name_is(s: &[u8], a: usize, b: usize, w: &[u8; 6]) -> (r: bool)
    requires
        a <= b <= s@.len(),
    ensures
        r == (s@.subrange(a as int, b as int) == w@),
{
    if b - a != 6 {
        proof {
            assert(s@.subrange(a as int, b as int).len() != w@.len());
        }
        return false;
    }
    let mut k: usize = 0;
    while k < 6
        invariant
            k <= 6,
            b - a == 6,
            a <= b <= s@.len(),
            forall|j: int| 0 <= j < k ==> s@[a + j] == w@[j],
        decreases 6 - k,
    {
        if s[a + k] != w[k] {
            proof {
                assert(s@.subrange(a as int, b as int)[k as int] != w@[k as int]);
            }
            return false;
        }
        k = k + 1;
    }
    assert(s@.subrange(a as int, b as int) =~= w@);
    true
}

fn labels_exec(s: &[u8], i: usize, sym: &mut WlaSym) -> (r: usize)
    requires
        i <= s@.len(),
    ensures
        labels_from(s@, i as int, old(sym).labels()) == (final(sym).labels(), r as int),
        final(sym).memmap() == old(sym).memmap(),
        i <= r <= s@.len(),
{
    let mut k = i;
    while k < s.len()
        invariant
            i <= k <= s@.len(),
            labels_from(s@, i as int, old(sym).labels()) == labels_from(s@, k as int, sym.labels()),
            sym.memmap() == old(sym).memmap(),
        decreases s@.len() - k,
    {
        match label(s, k) {
            Some((b, a, e)) => {
                if e < s.len() && s[e] == 10 {
                    let name = copy_range(s, k + 8, e);
                    sym.add_label(b, a, name);
                    k = e + 1;
                } else {
                    return k;
                }
            },
            None => {
                let e = extra_end_exec(s, k);
                if e < s.len() && s[e] == 10 && e >= k {
                    k = e + 1;
                } else {
                    return k;
                }
            },
        }
    }
    k
}

fn memmap_exec_section(s: &[u8], i: usize, sym: &mut WlaSym) -> (r: usize)
    requires
        i <= s@.len(),
    ensures
        memmap_from(s@, i as int, old(sym).memmap()) == (final(sym).memmap(), r as int),
        final(sym).labels() == old(sym).labels(),
        i <= r <= s@.len(),
{
    let mut k = i;
    while k < s.len()
        invariant
            i <= k <= s@.len(),
            memmap_from(s@, i as int, old(sym).memmap()) == memmap_from(s@, k as int, sym.memmap()),
            sym.labels() == old(sym).labels(),
        decreases s@.len() - k,
    {
        match memmap(s, k) {
            Some((b, a)) => {
                if k + 7 < s.len() && s[k + 7] == 10 {
                    sym.add_slot(b, a);
                    k = k + 8;
                } else {
                    return k;
                }
            },
            None => {
                let e = extra_end_exec(s, k);
                if e < s.len() && s[e] == 10 && e >= k {
                    k = e + 1;
                } else {
                    return k;
                }
            },
        }
    }
    k
}

fn unknown_exec(s: &[u8], i: usize) -> (r: usize)
    requires
        i <= s@.len(),
    ensures
        r == unknown_from(s@, i as int),
        i <= r <= s@.len(),
{
    let mut k = i;
    while k < s.len()
        invariant
            i <= k <= s@.len(),
            unknown_from(s@, i as int) == unknown_from(s@, k as int),
        decreases s@.len() - k,
    {
        if header_exec(s, k).is_some() {
            return k;
        }
        let e = line_end_exec(s, k);
        if e < s.len() && e >= k {
            k = e + 1;
        } else {
            return k;
        }
    }
    k
}

fn header_search_exec(s: &[u8], i: usize) -> (r: Option<(usize, usize, usize)>)
    requires
        i <= s@.len(),
    ensures
        match header_search(s@, i as int) {
            Some((name, after)) => r matches Some((st, e, a)) && a == after && name == s@.subrange(st as int, e as int),
            None => r is None,
        },
        r matches Some((st, e, a)) ==> i < st <= e < a <= s@.len(),
{
    let mut k = i;
    loop
        invariant
            i <= k <= s@.len(),
            header_search(s@, i as int) == header_search(s@, k as int),
        decreases s@.len() - k,
    {
        match header_exec(s, k) {
            Some((e, a)) => {
                return Some((k + 1, e, a));
            },
            None => {
                let e = extra_end_exec(s, k);
                if e < s.len() && s[e] == 10 && e >= k {
                    k = e + 1;
                } else {
                    return None;
                }
            },
        }
    }
}

/// Parses the section at `i` into `sym`; `None` (and `sym` unchanged) when
/// no section starts there.
fn section_exec(s: &[u8], i: usize, sym: &mut WlaSym) -> (r: Option<usize>)
    requires
        i <= s@.len(),
    ensures
        match section_at(s@, i as int, old(sym).labels(), old(sym).memmap()) {
            Some((l2, m2, e)) => r == Some(e as usize) && final(sym).labels() == l2 && final(sym).memmap() == m2 && 0 <= e <= s@.len(),
            None => r is None && final(sym).labels() == old(sym).labels() && final(sym).memmap() == old(sym).memmap(),
        },
        r matches Some(j) ==> i < j <= s@.len(),
{
    match header_search_exec(s, i) {
        Some((st, e, a)) => {
            if a < s.len() && s[a] == 10 {
                let labels_word: [u8; 6] = [108, 97, 98, 101, 108, 115];
                let memmap_word: [u8; 6] = [109, 101, 109, 109, 97, 112];
                assert(labels_word@ =~= labels_name());
                assert(memmap_word@ =~= memmap_name());
                if name_is(s, st, e, &labels_word) {
                    Some(labels_exec(s, a + 1, sym))
                } else if name_is(s, st, e, &memmap_word) {
                    Some(memmap_exec_section(s, a + 1, sym))
                } else {
                    Some(unknown_exec(s, a + 1))
                }
            } else {
                None
            }
        },
        None => None,
    }
}

/// Parses a symbol file: sections for as long as they parse. Gives the
/// labels and slots found (later entries replacing earlier ones) and the
/// index where parsing stopped.
pub fn parse(s: &[u8]) -> (r: (WlaSym, usize))
    ensures
        sections_from(s@, 0, Map::empty(), Map::empty()) == (r.0.labels(), r.0.memmap(), r.1 as int),
{
    let mut sym = WlaSym::new();
    let mut k: usize = 0;
    loop
        invariant
            k <= s@.len(),
            sections_from(s@, 0, Map::empty(), Map::empty()) == sections_from(s@, k as int, sym.labels(), sym.memmap()),
        decreases s@.len() - k,
    {
        let ghost l0 = sym.labels();
        let ghost m0 = sym.memmap();
        match section_exec(s, k, &mut sym) {
            Some(j) => {
                if k < j && j <= s.len() {
                    k = j;
                } else {
                    return (sym, k);
                }
            },
            None => {
                return (sym, k);
            },
        }
    }
}

} // verus!
