//! The parse state: the root-account name table and the pushed-tag stack.

use vstd::prelude::*;
use crate::chars::{chars_eq_str, chars_of_str, eq_chars};
use crate::scan::{clone_chars, copy_range};
use crate::model::AccountType;

verus! {

// ---------------------------------------------------------------------------
// Root names.
// ---------------------------------------------------------------------------

/// Spec image of the root-name table.
pub struct RootNamesV {
    pub assets: Seq<char>,
    pub liabilities: Seq<char>,
    pub equity: Seq<char>,
    pub income: Seq<char>,
    pub expenses: Seq<char>,
}

/// The current textual root for each of the five account types.
#[derive(Debug, Clone, PartialEq)]
pub struct RootNames {
    pub assets: Vec<char>,
    pub liabilities: Vec<char>,
    pub equity: Vec<char>,
    pub income: Vec<char>,
    pub expenses: Vec<char>,
}

impl View for RootNames {
    type V = RootNamesV;

    open spec fn view(&self) -> RootNamesV {
        RootNamesV {
            assets: self.assets@,
            liabilities: self.liabilities@,
            equity: self.equity@,
            income: self.income@,
            expenses: self.expenses@,
        }
    }
}

/// The default table: each type keyed by its canonical English name.
pub open spec fn spec_default_roots() -> RootNamesV {
    RootNamesV {
        assets: "Assets"@,
        liabilities: "Liabilities"@,
        equity: "Equity"@,
        income: "Income"@,
        expenses: "Expenses"@,
    }
}

/// Which account type a root word denotes under the table, if any.
pub open spec fn spec_resolve_root(roots: RootNamesV, w: Seq<char>) -> Option<AccountType> {
    if w == roots.assets {
        Some(AccountType::Assets)
    } else if w == roots.liabilities {
        Some(AccountType::Liabilities)
    } else if w == roots.equity {
        Some(AccountType::Equity)
    } else if w == roots.income {
        Some(AccountType::Income)
    } else if w == roots.expenses {
        Some(AccountType::Expenses)
    } else {
        None
    }
}

/// The table after an option directive: the five `name_*` options replace
/// the root for their type; any other option leaves the table unchanged.
pub open spec fn spec_apply_option(roots: RootNamesV, name: Seq<char>, val: Seq<char>)
    -> RootNamesV {
    if name == "name_assets"@ {
        RootNamesV { assets: val, ..roots }
    } else if name == "name_liabilities"@ {
        RootNamesV { liabilities: val, ..roots }
    } else if name == "name_equity"@ {
        RootNamesV { equity: val, ..roots }
    } else if name == "name_income"@ {
        RootNamesV { income: val, ..roots }
    } else if name == "name_expenses"@ {
        RootNamesV { expenses: val, ..roots }
    } else {
        roots
    }
}

impl RootNames {
    /// The table with the default names.
    pub fn new() -> (r: RootNames)
        ensures
            r@ == spec_default_roots(),
    {
        RootNames {
            assets: chars_of_str("Assets"),
            liabilities: chars_of_str("Liabilities"),
            equity: chars_of_str("Equity"),
            income: chars_of_str("Income"),
            expenses: chars_of_str("Expenses"),
        }
    }

    /// Looks a root word up in the table.
    pub fn resolve(&self, w: &Vec<char>) -> (r: Option<AccountType>)
        ensures
            r == spec_resolve_root(self@, w@),
    {
        if eq_chars(w, &self.assets) {
            Some(AccountType::Assets)
        } else if eq_chars(w, &self.liabilities) {
            Some(AccountType::Liabilities)
        } else if eq_chars(w, &self.equity) {
            Some(AccountType::Equity)
        } else if eq_chars(w, &self.income) {
            Some(AccountType::Income)
        } else if eq_chars(w, &self.expenses) {
            Some(AccountType::Expenses)
        } else {
            None
        }
    }

    /// Applies an option directive to the table.
    pub fn apply_option(&mut self, name: &Vec<char>, val: &Vec<char>)
        ensures
            final(self)@ == spec_apply_option(old(self)@, name@, val@),
    {
        if chars_eq_str(name, "name_assets") {
            self.assets = clone_chars(val);
        } else if chars_eq_str(name, "name_liabilities") {
            self.liabilities = clone_chars(val);
        } else if chars_eq_str(name, "name_equity") {
            self.equity = clone_chars(val);
        } else if chars_eq_str(name, "name_income") {
            self.income = clone_chars(val);
        } else if chars_eq_str(name, "name_expenses") {
            self.expenses = clone_chars(val);
        }
    }
}

// ---------------------------------------------------------------------------
// The tag stack.
// ---------------------------------------------------------------------------

/// One pushed tag and how many times it is currently pushed.
#[derive(Debug, Clone, PartialEq)]
pub struct TagEntry {
    pub name: Vec<char>,
    pub count: usize,
}

/// The pushed-tag stack: a multiset of tags kept as an insertion-ordered
/// association list with positive counts.
#[derive(Debug, Clone, PartialEq)]
pub struct TagStack {
    pub entries: Vec<TagEntry>,
}

impl View for TagStack {
    type V = Seq<(Seq<char>, int)>;

    open spec fn view(&self) -> Seq<(Seq<char>, int)> {
        Seq::new(self.entries@.len(), |k: int| (self.entries@[k].name@, self.entries@[k].count as int))
    }
}

/// The first index holding tag `t`, or -1.
pub open spec fn spec_stack_find(st: Seq<(Seq<char>, int)>, t: Seq<char>) -> int
    decreases st.len(),
{
    if st.len() == 0 {
        -1
    } else if st[0].0 == t {
        0
    } else {
        let r = spec_stack_find(st.skip(1), t);
        if r < 0 {
            -1
        } else {
            r + 1
        }
    }
}

/// The sum of all counts.
pub open spec fn spec_stack_total(st: Seq<(Seq<char>, int)>) -> int
    decreases st.len(),
{
    if st.len() == 0 {
        0
    } else {
        st[0].1 + spec_stack_total(st.skip(1))
    }
}

/// Every count is at least one.
pub open spec fn spec_stack_wf(st: Seq<(Seq<char>, int)>) -> bool {
    forall|k: int| 0 <= k < st.len() ==> (#[trigger] st[k]).1 >= 1
}

/// The stack after pushing tag `t`.
pub open spec fn spec_stack_push(st: Seq<(Seq<char>, int)>, t: Seq<char>)
    -> Seq<(Seq<char>, int)> {
    let idx = spec_stack_find(st, t);
    if idx >= 0 {
        st.update(idx, (st[idx].0, st[idx].1 + 1))
    } else {
        st.push((t, 1))
    }
}

/// The stack after popping tag `t`, or `None` when `t` is absent.
pub open spec fn spec_stack_pop(st: Seq<(Seq<char>, int)>, t: Seq<char>)
    -> Option<Seq<(Seq<char>, int)>> {
    let idx = spec_stack_find(st, t);
    if idx < 0 {
        None
    } else if st[idx].1 <= 1 {
        Some(st.remove(idx))
    } else {
        Some(st.update(idx, (st[idx].0, st[idx].1 - 1)))
    }
}

/// The distinct pushed tags, in insertion order.
pub open spec fn spec_stack_keys(st: Seq<(Seq<char>, int)>) -> Seq<Seq<char>> {
    Seq::new(st.len(), |k: int| st[k].0)
}

proof fn lemma_stack_total_nonneg(st: Seq<(Seq<char>, int)>)
    requires
        spec_stack_wf(st),
    ensures
        spec_stack_total(st) >= st.len(),
    decreases st.len(),
{
    if st.len() > 0 {
        assert(spec_stack_wf(st.skip(1)));
        lemma_stack_total_nonneg(st.skip(1));
    }
}

proof fn lemma_stack_count_le_total(st: Seq<(Seq<char>, int)>, k: int)
    requires
        spec_stack_wf(st),
        0 <= k < st.len(),
    ensures
        st[k].1 <= spec_stack_total(st),
    decreases st.len(),
{
    if k == 0 {
        assert(spec_stack_wf(st.skip(1)));
        lemma_stack_total_nonneg(st.skip(1));
    } else {
        assert(spec_stack_wf(st.skip(1)));
        lemma_stack_count_le_total(st.skip(1), k - 1);
        assert(st.skip(1)[k - 1] == st[k]);
        assert(st[0].1 >= 1);
    }
}

impl TagStack {
    /// An empty stack.
    pub fn new() -> (r: TagStack)
        ensures
            r@ == Seq::<(Seq<char>, int)>::empty(),
    {
        let r = TagStack { entries: Vec::new() };
        proof {
            assert(r@ =~= Seq::<(Seq<char>, int)>::empty());
        }
        r
    }

    pub open spec fn wf(&self) -> bool {
        spec_stack_wf(self@)
    }

    /// Finds the index of a tag.
    fn find(&self, t: &Vec<char>) -> (r: Option<usize>)
        ensures
            match r {
                Some(k) => spec_stack_find(self@, t@) == k as int && k < self.entries@.len(),
                None => spec_stack_find(self@, t@) < 0,
            },
    {
        let mut k: usize = 0;
        proof {
            assert(self@.skip(0) =~= self@);
        }
        while k < self.entries.len()
            invariant
                k <= self.entries@.len(),
                forall|m: int| 0 <= m < k ==> (#[trigger] self@[m]).0 != t@,
                spec_stack_find(self@, t@) == if spec_stack_find(self@.skip(k as int), t@) < 0 {
                    -1
                } else {
                    spec_stack_find(self@.skip(k as int), t@) + k
                },
            decreases self.entries@.len() - k,
        {
            proof {
                assert(self@.skip(k as int)[0] == self@[k as int]);
            }
            if eq_chars(&self.entries[k].name, t) {
                return Some(k);
            }
            proof {
                assert(self@.skip(k as int).skip(1) =~= self@.skip(k + 1));
            }
            k = k + 1;
        }
        proof {
            assert(self@.skip(k as int).len() == 0);
        }
        None
    }

    /// Pushes a tag: a present tag's count rises by one, an absent tag is
    /// appended with count one.
    pub fn push_tag(&mut self, t: Vec<char>)
        requires
            old(self).wf(),
            spec_stack_total(old(self)@) < usize::MAX,
        ensures
            final(self)@ == spec_stack_push(old(self)@, t@),
            final(self).wf(),
    {
        match self.find(&t) {
            Some(k) => {
                proof {
                    lemma_stack_count_le_total(self@, k as int);
                }
                let e = self.entries.remove(k);
                let c = e.count;
                self.entries.insert(k, TagEntry { name: e.name, count: c + 1 });
                proof {
                    assert(self@ =~= spec_stack_push(old(self)@, t@));
                }
            },
            None => {
                self.entries.push(TagEntry { name: t, count: 1 });
                proof {
                    assert(self@ =~= spec_stack_push(old(self)@, t@));
                }
            },
        }
    }

    /// Pops a tag: a count of one removes the entry, a higher count drops by
    /// one, an absent tag is an error.
    pub fn pop_tag(&mut self, t: &Vec<char>) -> (r: bool)
        requires
            old(self).wf(),
        ensures
            match spec_stack_pop(old(self)@, t@) {
                Some(st) => r && final(self)@ == st,
                None => !r && final(self)@ == old(self)@,
            },
            final(self).wf(),
    {
        match self.find(t) {
            Some(k) => {
                let e = self.entries.remove(k);
                if e.count <= 1 {
                    proof {
                        assert(self@ =~= old(self)@.remove(k as int));
                    }
                } else {
                    let c = e.count;
                    self.entries.insert(k, TagEntry { name: e.name, count: c - 1 });
                    proof {
                        assert(self@ =~= old(self)@.update(
                            k as int,
                            (old(self)@[k as int].0, old(self)@[k as int].1 - 1),
                        ));
                    }
                }
                true
            },
            None => false,
        }
    }

    /// Whether no tags are pushed.
    pub fn is_empty(&self) -> (r: bool)
        ensures
            r == (self@.len() == 0),
    {
        self.entries.len() == 0
    }

    /// The distinct pushed tags, in insertion order.
    pub fn keys(&self) -> (r: Vec<Vec<char>>)
        ensures
            r@.len() == self@.len(),
            forall|m: int| 0 <= m < r@.len() ==> (#[trigger] r@[m])@ == self@[m].0,
    {
        let mut r: Vec<Vec<char>> = Vec::new();
        let mut k: usize = 0;
        while k < self.entries.len()
            invariant
                k <= self.entries@.len(),
                r@.len() == k,
                forall|m: int| 0 <= m < k ==> (#[trigger] r@[m])@ == self@[m].0,
            decreases self.entries@.len() - k,
        {
            let nm = clone_chars(&self.entries[k].name);
            r.push(nm);
            k = k + 1;
        }
        r
    }

    /// The total number of pushes not yet popped.
    pub open spec fn spec_total(&self) -> int {
        spec_stack_total(self@)
    }
}

/// The whole parse state.
#[derive(Debug, Clone, PartialEq)]
pub struct ParseState {
    pub roots: RootNames,
    pub tags: TagStack,
}

impl ParseState {
    /// The initial state: default root names, no pushed tags.
    pub fn new() -> (r: ParseState)
        ensures
            r.roots@ == spec_default_roots(),
            r.tags@ == Seq::<(Seq<char>, int)>::empty(),
            r.tags.wf(),
    {
        ParseState { roots: RootNames::new(), tags: TagStack::new() }
    }
}

} // verus!

// How pushes and pops move the total count.

verus! {

pub proof fn lemma_stack_find_valid(st: Seq<(Seq<char>, int)>, t: Seq<char>)
    ensures
        spec_stack_find(st, t) >= 0 ==> spec_stack_find(st, t) < st.len() && st[spec_stack_find(
            st,
            t,
        )].0 == t,
    decreases st.len(),
{
    if st.len() > 0 && st[0].0 != t {
        lemma_stack_find_valid(st.skip(1), t);
        if spec_stack_find(st.skip(1), t) >= 0 {
            assert(st.skip(1)[spec_stack_find(st.skip(1), t)] == st[spec_stack_find(st, t)]);
        }
    }
}

proof fn lemma_total_push_one(st: Seq<(Seq<char>, int)>, x: (Seq<char>, int))
    ensures
        spec_stack_total(st.push(x)) == spec_stack_total(st) + x.1,
    decreases st.len(),
{
    if st.len() == 0 {
        assert(st.push(x)[0] == x);
        assert(st.push(x).skip(1) =~= Seq::<(Seq<char>, int)>::empty());
        assert(spec_stack_total(st.push(x)) == st.push(x)[0].1 + spec_stack_total(
            st.push(x).skip(1),
        ));
    } else {
        assert(st.push(x)[0] == st[0]);
        assert(st.push(x).skip(1) =~= st.skip(1).push(x));
        lemma_total_push_one(st.skip(1), x);
        assert(spec_stack_total(st.push(x)) == st.push(x)[0].1 + spec_stack_total(
            st.push(x).skip(1),
        ));
        assert(spec_stack_total(st) == st[0].1 + spec_stack_total(st.skip(1)));
    }
}

proof fn lemma_total_update(st: Seq<(Seq<char>, int)>, idx: int, v: (Seq<char>, int))
    requires
        0 <= idx < st.len(),
    ensures
        spec_stack_total(st.update(idx, v)) == spec_stack_total(st) - st[idx].1 + v.1,
    decreases st.len(),
{
    if idx == 0 {
        assert(st.update(0, v).skip(1) =~= st.skip(1));
    } else {
        assert(st.update(idx, v).skip(1) =~= st.skip(1).update(idx - 1, v));
        lemma_total_update(st.skip(1), idx - 1, v);
        assert(st.skip(1)[idx - 1] == st[idx]);
    }
}

proof fn lemma_total_remove(st: Seq<(Seq<char>, int)>, idx: int)
    requires
        0 <= idx < st.len(),
    ensures
        spec_stack_total(st.remove(idx)) == spec_stack_total(st) - st[idx].1,
    decreases st.len(),
{
    if idx == 0 {
        assert(st.remove(0) =~= st.skip(1));
    } else {
        assert(st.remove(idx).skip(1) =~= st.skip(1).remove(idx - 1));
        assert(st.remove(idx)[0] == st[0]);
        lemma_total_remove(st.skip(1), idx - 1);
        assert(st.skip(1)[idx - 1] == st[idx]);
    }
}

/// Pushing a tag raises the total by one.
pub proof fn lemma_stack_push_total(st: Seq<(Seq<char>, int)>, t: Seq<char>)
    ensures
        spec_stack_total(spec_stack_push(st, t)) == spec_stack_total(st) + 1,
{
    let idx = spec_stack_find(st, t);
    lemma_stack_find_valid(st, t);
    if idx >= 0 {
        lemma_total_update(st, idx, (st[idx].0, st[idx].1 + 1));
    } else {
        lemma_total_push_one(st, (t, 1));
    }
}

/// Popping a tag lowers the total by one.
pub proof fn lemma_stack_pop_total(st: Seq<(Seq<char>, int)>, t: Seq<char>)
    requires
        spec_stack_wf(st),
    ensures
        spec_stack_pop(st, t) matches Some(st2) ==> spec_stack_total(st2) == spec_stack_total(
            st,
        ) - 1,
{
    let idx = spec_stack_find(st, t);
    lemma_stack_find_valid(st, t);
    if idx >= 0 {
        if st[idx].1 <= 1 {
            lemma_total_remove(st, idx);
        } else {
            lemma_total_update(st, idx, (st[idx].0, st[idx].1 - 1));
        }
    }
}


} // verus!
