//! The monitor topology: connector names mapped to geometries.
//!
//! Entries are kept sorted by connector name, so that walking the
//! topology is deterministic and already in the lexicographic order the
//! stretch arrangement asks for.

use vstd::prelude::*;

use crate::text::{lemma_char_cast_distinct, lex_lt, str_eq, str_lt};

verus! {

/// Geometry of one monitor in the compositor's coordinate space.
#[derive(Debug, Clone, Copy, PartialEq, Eq, Structural)]
pub struct MonitorInfo {
    pub x: i32,
    pub y: i32,
    pub width: i32,
    pub height: i32,
}

impl MonitorInfo {
    /// Sizes are non-negative and the far edges still fit in `i32`.
    pub open spec fn wf(self) -> bool {
        &&& 0 <= self.width
        &&& 0 <= self.height
        &&& self.x + self.width <= i32::MAX
        &&& self.y + self.height <= i32::MAX
    }
}

/// One topology entry: a connector name with its geometry.
#[derive(Debug, Clone, PartialEq, Eq)]
pub struct MonitorEntry {
    pub name: String,
    pub info: MonitorInfo,
}

/// Spec-level model of [`MonitorEntry`].
pub struct MonitorEntryV {
    pub name: Seq<char>,
    pub info: MonitorInfo,
}

impl View for MonitorEntry {
    type V = MonitorEntryV;

    open spec fn view(&self) -> MonitorEntryV {
        MonitorEntryV { name: self.name@, info: self.info }
    }
}

/// Names are strictly ascending, which also makes them unique.
pub open spec fn sorted_names(s: Seq<MonitorEntryV>) -> bool {
    forall|i: int, j: int| 0 <= i < j < s.len() ==> lex_lt(s[i].name, s[j].name)
}

/// Every geometry in the sequence is well formed.
pub open spec fn infos_wf(s: Seq<MonitorEntryV>) -> bool {
    forall|i: int| 0 <= i < s.len() ==> s[i].info.wf()
}

/// The geometry stored under `name`, scanning front to back.
pub open spec fn spec_get_from(s: Seq<MonitorEntryV>, name: Seq<char>) -> Option<MonitorInfo>
    decreases s.len(),
{
    if s.len() == 0 {
        None
    } else if s[0].name == name {
        Some(s[0].info)
    } else {
        spec_get_from(s.skip(1), name)
    }
}

/// Insertion into a name-sorted sequence, replacing an equal name.
pub open spec fn spec_insert(
    s: Seq<MonitorEntryV>,
    name: Seq<char>,
    info: MonitorInfo,
) -> Seq<MonitorEntryV>
    decreases s.len(),
{
    if s.len() == 0 {
        seq![MonitorEntryV { name, info }]
    } else if s[0].name == name {
        seq![MonitorEntryV { name, info }] + s.skip(1)
    } else if lex_lt(name, s[0].name) {
        seq![MonitorEntryV { name, info }] + s
    } else {
        seq![s[0]] + spec_insert(s.skip(1), name, info)
    }
}

pub proof fn lemma_lex_lt_irrefl(a: Seq<char>)
    ensures
        !lex_lt(a, a),
    decreases a.len(),
{
    if a.len() > 0 {
        lemma_lex_lt_irrefl(a.skip(1));
    }
}

pub proof fn lemma_lex_lt_asym(a: Seq<char>, b: Seq<char>)
    requires
        lex_lt(a, b),
    ensures
        !lex_lt(b, a),
    decreases a.len(),
{
    if a.len() > 0 && b.len() > 0 && a[0] == b[0] {
        lemma_lex_lt_asym(a.skip(1), b.skip(1));
    }
}

pub proof fn lemma_lex_lt_total(a: Seq<char>, b: Seq<char>)
    ensures
        lex_lt(a, b) || lex_lt(b, a) || a == b,
    decreases a.len(),
{
    if a.len() == 0 && b.len() == 0 {
        assert(a =~= b);
    } else if a.len() == 0 || b.len() == 0 {
        assert(lex_lt(a, b) || lex_lt(b, a));
    } else if a[0] != b[0] {
        lemma_char_cast_distinct(a[0], b[0]);
        assert(lex_lt(a, b) || lex_lt(b, a));
    } else {
        lemma_lex_lt_total(a.skip(1), b.skip(1));
        if a.skip(1) == b.skip(1) {
            assert(a =~= seq![a[0]] + a.skip(1));
            assert(b =~= seq![b[0]] + b.skip(1));
            assert(a == b);
        }
    }
}

pub proof fn lemma_lex_lt_trans(a: Seq<char>, b: Seq<char>, c: Seq<char>)
    requires
        lex_lt(a, b),
        lex_lt(b, c),
    ensures
        lex_lt(a, c),
    decreases a.len(),
{
    if a.len() > 0 && b.len() > 0 && c.len() > 0 && a[0] == b[0] && b[0] == c[0] {
        lemma_lex_lt_trans(a.skip(1), b.skip(1), c.skip(1));
    }
}

/// The current monitor topology.
#[derive(Debug, Clone, PartialEq, Eq)]
pub struct MonitorMap {
    entries: Vec<MonitorEntry>,
}

impl View for MonitorMap {
    type V = Seq<MonitorEntryV>;

    closed spec fn view(&self) -> Seq<MonitorEntryV> {
        self.entries@.map_values(|e: MonitorEntry| e@)
    }
}

impl MonitorMap {
    /// Entries sorted strictly by name, with well-formed geometries.
    pub open spec fn wf(self) -> bool {
        sorted_names(self@) && infos_wf(self@)
    }

    pub open spec fn spec_get(self, name: Seq<char>) -> Option<MonitorInfo> {
        spec_get_from(self@, name)
    }

    pub open spec fn contains_name(self, name: Seq<char>) -> bool {
        self.spec_get(name) is Some
    }

    pub fn new() -> (r: MonitorMap)
        ensures
            r@ == Seq::<MonitorEntryV>::empty(),
            r.wf(),
    {
        let r = MonitorMap { entries: Vec::new() };
        proof {
            assert(r@ =~= Seq::<MonitorEntryV>::empty());
        }
        r
    }

    pub fn len(&self) -> (r: usize)
        ensures
            r == self@.len(),
    {
        self.entries.len()
    }

    pub fn entry_at(&self, i: usize) -> (r: &MonitorEntry)
        requires
            i < self@.len(),
        ensures
            r@ == self@[i as int],
    {
        &self.entries[i]
    }

    /// Looks a connector name up, front to back.
    pub fn get(&self, name: &str) -> (r: Option<MonitorInfo>)
        ensures
            r == self.spec_get(name@),
    {
        let n = self.entries.len();
        let mut i: usize = 0;
        proof {
            assert(self@.skip(0) =~= self@);
        }
        loop
            invariant
                n == self@.len(),
                i <= n,
                spec_get_from(self@, name@) == spec_get_from(self@.skip(i as int), name@),
            decreases n - i,
        {
            if i == n {
                return None;
            }
            let e = &self.entries[i];
            if str_eq(e.name.as_str(), name) {
                return Some(e.info);
            }
            proof {
                assert(self@.skip(i as int).skip(1) =~= self@.skip(i + 1));
            }
            i = i + 1;
        }
    }

    /// Adds or replaces the geometry stored under `name`, keeping the
    /// entries sorted.
    pub fn insert(&mut self, name: String, info: MonitorInfo)
        requires
            old(self).wf(),
            info.wf(),
        ensures
            final(self)@ == spec_insert(old(self)@, name@, info),
            final(self).wf(),
    {
        let n = self.entries.len();
        let mut k: usize = 0;
        while k < n && str_lt(self.entries[k].name.as_str(), name.as_str())
            invariant
                n == self@.len(),
                k <= n,
                self == old(self),
                forall|i: int| 0 <= i < k ==> lex_lt(self@[i].name, name@),
            decreases n - k,
        {
            k = k + 1;
        }
        proof {
            assert(k < n ==> !lex_lt(self@[k as int].name, name@));
        }
        let ghost s = self@;
        let ghost nm = name@;
        if k < n && str_eq(self.entries[k].name.as_str(), name.as_str()) {
            let e = MonitorEntry { name, info };
            self.entries.set(k, e);
            proof {
                assert(self@ =~= s.update(k as int, MonitorEntryV { name: nm, info }));
                lemma_spec_insert_at(s, nm, info, k as int);
                assert forall|i: int, j: int| 0 <= i < j < self@.len() implies lex_lt(
                    self@[i].name,
                    self@[j].name,
                ) by {
                    assert(s[i].name == self@[i].name);
                    assert(s[j].name == self@[j].name);
                }
            }
        } else {
            proof {
                if k < n {
                    lemma_lex_lt_total(s[k as int].name, nm);
                }
            }
            let e = MonitorEntry { name, info };
            self.entries.insert(k, e);
            proof {
                assert(self@ =~= s.insert(k as int, MonitorEntryV { name: nm, info }));
                lemma_spec_insert_at(s, nm, info, k as int);
                assert(s.insert(k as int, MonitorEntryV { name: nm, info }) =~= s.take(k as int)
                    + seq![MonitorEntryV { name: nm, info }] + s.skip(k as int));
                assert forall|i: int, j: int| 0 <= i < j < self@.len() implies lex_lt(
                    self@[i].name,
                    self@[j].name,
                ) by {
                    lemma_insert_keeps_sorted_index(s, nm, info, k as int, i, j);
                }
            }
        }
    }
}

/// Where the scan for the insertion point stopped determines what
/// `spec_insert` unfolds to.
proof fn lemma_spec_insert_at(s: Seq<MonitorEntryV>, name: Seq<char>, info: MonitorInfo, k: int)
    requires
        0 <= k <= s.len(),
        forall|i: int| 0 <= i < k ==> lex_lt(s[i].name, name),
        k < s.len() ==> !lex_lt(s[k].name, name),
    ensures
        spec_insert(s, name, info) == if k < s.len() && s[k].name == name {
            s.update(k, MonitorEntryV { name, info })
        } else {
            s.take(k) + seq![MonitorEntryV { name, info }] + s.skip(k)
        },
    decreases k,
{
    let e = MonitorEntryV { name, info };
    if s.len() == 0 {
        assert(spec_insert(s, name, info) =~= s.take(k) + seq![e] + s.skip(k));
    } else if k == 0 {
        if s[0].name == name {
            assert(seq![e] + s.skip(1) =~= s.update(0, e));
        } else {
            lemma_lex_lt_total(name, s[0].name);
            assert(lex_lt(name, s[0].name));
            assert(seq![e] + s =~= s.take(0) + seq![e] + s.skip(0));
        }
    } else {
        assert(lex_lt(s[0].name, name));
        lemma_lex_lt_irrefl(s[0].name);
        assert(s[0].name != name);
        lemma_lex_lt_asym(s[0].name, name);
        assert(!lex_lt(name, s[0].name));
        let t = s.skip(1);
        lemma_spec_insert_at(t, name, info, k - 1);
        assert(spec_insert(s, name, info) == seq![s[0]] + spec_insert(t, name, info));
        if k < s.len() && s[k].name == name {
            assert(t[k - 1].name == name);
            assert(seq![s[0]] + t.update(k - 1, e) =~= s.update(k, e));
        } else {
            assert(seq![s[0]] + (t.take(k - 1) + seq![e] + t.skip(k - 1)) =~= s.take(k) + seq![e]
                + s.skip(k));
        }
    }
}

/// Any two positions of a sorted sequence stay ordered after inserting a
/// fresh name at the point the scan found for it.
proof fn lemma_insert_keeps_sorted_index(
    s: Seq<MonitorEntryV>,
    name: Seq<char>,
    info: MonitorInfo,
    k: int,
    i: int,
    j: int,
)
    requires
        sorted_names(s),
        0 <= k <= s.len(),
        forall|m: int| 0 <= m < k ==> lex_lt(s[m].name, name),
        k < s.len() ==> !lex_lt(s[k].name, name) && s[k].name != name,
        0 <= i < j < s.insert(k, MonitorEntryV { name, info }).len(),
    ensures
        lex_lt(
            s.insert(k, MonitorEntryV { name, info })[i].name,
            s.insert(k, MonitorEntryV { name, info })[j].name,
        ),
{
    let t = s.insert(k, MonitorEntryV { name, info });
    if k < s.len() {
        lemma_lex_lt_total(s[k].name, name);
        assert(lex_lt(name, s[k].name));
    }
    assert forall|m: int| k <= m < s.len() implies lex_lt(name, s[m].name) by {
        if m > k {
            lemma_lex_lt_trans(name, s[k].name, s[m].name);
        }
    }
    if i < k && j < k {
    } else if i < k && j == k {
    } else if i < k && j > k {
        assert(t[j] == s[j - 1]);
    } else if i == k {
        assert(t[j] == s[j - 1]);
    } else {
        assert(t[i] == s[i - 1]);
        assert(t[j] == s[j - 1]);
    }
}

/// Looking a name up after an insertion finds the new geometry for that
/// name and leaves every other name unchanged.
pub proof fn lemma_get_after_insert(
    s: Seq<MonitorEntryV>,
    name: Seq<char>,
    info: MonitorInfo,
    probe: Seq<char>,
)
    ensures
        spec_get_from(spec_insert(s, name, info), probe) == if probe == name {
            Some(info)
        } else {
            spec_get_from(s, probe)
        },
    decreases s.len(),
{
    reveal_with_fuel(spec_get_from, 3);
    let e = MonitorEntryV { name, info };
    if s.len() == 0 {
        assert(spec_insert(s, name, info) == seq![e]);
        assert(seq![e][0] == e);
        assert(seq![e].skip(1) =~= Seq::<MonitorEntryV>::empty());
    } else if s[0].name == name {
        assert((seq![e] + s.skip(1))[0] == e);
        assert((seq![e] + s.skip(1)).skip(1) =~= s.skip(1));
    } else if lex_lt(name, s[0].name) {
        assert((seq![e] + s)[0] == e);
        assert((seq![e] + s).skip(1) =~= s);
        lemma_lex_lt_irrefl(s[0].name);
    } else {
        lemma_get_after_insert(s.skip(1), name, info, probe);
        assert((seq![s[0]] + spec_insert(s.skip(1), name, info))[0] == s[0]);
        assert((seq![s[0]] + spec_insert(s.skip(1), name, info)).skip(1) =~= spec_insert(
            s.skip(1),
            name,
            info,
        ));
        lemma_lex_lt_irrefl(s[0].name);
    }
}

} // verus!
