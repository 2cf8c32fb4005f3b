//! The function registry: the immutable table of parsed templates, and the
//! growing cache of concrete (specialized) functions keyed by mangled name.
//! A cache slot is first reserved with a provisional entry recording only
//! the template's declared return type, and later filled with the finished
//! concrete function; a reserved slot is a valid lookup result, which is
//! what keeps recursive and mutually recursive calls from re-entering the
//! same specialization forever.

use vstd::prelude::*;

use crate::ast::{Expr, ExprV, Param, ParamV, Template, TemplateV};
use crate::types::Type;

verus! {

// ---------------------------------------------------------------------------
// Association sequences keyed by name
// ---------------------------------------------------------------------------

/// The first value stored under key `k`, searching from the front.
pub open spec fn assoc_find<V>(s: Seq<(Seq<char>, V)>, k: Seq<char>) -> Option<V>
    decreases s,
{
    if s.len() == 0 {
        None
    } else if s[0].0 == k {
        Some(s[0].1)
    } else {
        assoc_find(s.drop_first(), k)
    }
}

/// No two entries carry the same key.
pub open spec fn assoc_distinct<V>(s: Seq<(Seq<char>, V)>) -> bool {
    forall|i: int, j: int| 0 <= i < j < s.len() ==> s[i].0 != s[j].0
}

/// Store `v` under `k`: replace the entry that carries `k`, keeping its
/// position, or append a fresh entry at the end.
pub open spec fn assoc_set<V>(s: Seq<(Seq<char>, V)>, k: Seq<char>, v: V) -> Seq<(Seq<char>, V)>
    decreases s,
{
    if s.len() == 0 {
        seq![(k, v)]
    } else if s[0].0 == k {
        seq![(k, v)] + s.drop_first()
    } else {
        seq![s[0]] + assoc_set(s.drop_first(), k, v)
    }
}

/// What `assoc_set` does to lookups and to the key set.
pub proof fn lemma_assoc_set<V>(s: Seq<(Seq<char>, V)>, k: Seq<char>, v: V)
    requires
        assoc_distinct(s),
    ensures
        assoc_distinct(assoc_set(s, k, v)),
        assoc_find(assoc_set(s, k, v), k) == Some(v),
        forall|k2: Seq<char>| k2 != k ==> assoc_find(assoc_set(s, k, v), k2) == assoc_find(s, k2),
        assoc_find(s, k) is Some ==> assoc_set(s, k, v).len() == s.len(),
        assoc_find(s, k) is None ==> assoc_set(s, k, v).len() == s.len() + 1,
    decreases s,
{
    if s.len() == 0 {
        assert forall|k2: Seq<char>| k2 != k implies assoc_find(assoc_set(s, k, v), k2)
            == assoc_find(s, k2) by {
            let t = assoc_set(s, k, v);
            assert(t[0].0 == k && t.len() == 1);
            assert(assoc_find(t, k2) == assoc_find(t.drop_first(), k2));
            assert(t.drop_first() =~= Seq::<(Seq<char>, V)>::empty());
            assert(assoc_find(Seq::<(Seq<char>, V)>::empty(), k2) is None);
        }
    } else if s[0].0 == k {
        assert(assoc_set(s, k, v).drop_first() =~= s.drop_first());
        assert forall|k2: Seq<char>| k2 != k implies assoc_find(assoc_set(s, k, v), k2)
            == assoc_find(s, k2) by {
            assert(assoc_find(assoc_set(s, k, v), k2) == assoc_find(s.drop_first(), k2));
        }
    } else {
        lemma_assoc_set(s.drop_first(), k, v);
        assert(assoc_set(s, k, v).drop_first() =~= assoc_set(s.drop_first(), k, v));
        assert(assoc_set(s, k, v)[0] == s[0]);
        assert forall|k2: Seq<char>| k2 != k implies assoc_find(assoc_set(s, k, v), k2)
            == assoc_find(s, k2) by {
            if s[0].0 != k2 {
                assert(assoc_find(assoc_set(s, k, v), k2) == assoc_find(
                    assoc_set(s.drop_first(), k, v),
                    k2,
                ));
                assert(assoc_find(s, k2) == assoc_find(s.drop_first(), k2));
            }
        }
        let t = assoc_set(s, k, v);
        assert forall|i: int, j: int| 0 <= i < j < t.len() implies t[i].0 != t[j].0 by {
            if i > 0 {
                assert(t.drop_first()[i - 1].0 != t.drop_first()[j - 1].0);
            } else {
                assert(t[j].0 == t.drop_first()[j - 1].0);
                lemma_assoc_set_keys(s.drop_first(), k, v, j - 1);
            }
        }
    }
}

/// Every key of `assoc_set(s, k, v)` is `k` or a key of `s`.
proof fn lemma_assoc_set_keys<V>(s: Seq<(Seq<char>, V)>, k: Seq<char>, v: V, i: int)
    requires
        0 <= i < assoc_set(s, k, v).len(),
    ensures
        assoc_set(s, k, v)[i].0 == k || exists|j: int|
            0 <= j < s.len() && s[j].0 == assoc_set(s, k, v)[i].0,
    decreases s,
{
    if s.len() == 0 {
    } else if s[0].0 == k {
        if i > 0 {
            assert(assoc_set(s, k, v)[i] == s[i]);
        }
    } else {
        if i > 0 {
            assert(assoc_set(s, k, v)[i] == assoc_set(s.drop_first(), k, v)[i - 1]);
            lemma_assoc_set_keys(s.drop_first(), k, v, i - 1);
            if assoc_set(s.drop_first(), k, v)[i - 1].0 != k {
                let j = choose|j: int|
                    0 <= j < s.drop_first().len() && s.drop_first()[j].0 == assoc_set(
                        s.drop_first(),
                        k,
                        v,
                    )[i - 1].0;
                assert(s[j + 1].0 == assoc_set(s, k, v)[i].0);
            }
        }
    }
}

/// A found key points at an entry; used to step exec searches.
pub proof fn lemma_assoc_find_at<V>(s: Seq<(Seq<char>, V)>, i: int)
    requires
        assoc_distinct(s),
        0 <= i < s.len(),
    ensures
        assoc_find(s, s[i].0) == Some(s[i].1),
    decreases s,
{
    if i > 0 {
        assert(s.drop_first()[i - 1] == s[i]);
        lemma_assoc_find_at(s.drop_first(), i - 1);
    }
}

/// What a lookup finds stands as an entry in the sequence.
pub proof fn lemma_assoc_find_in<V>(s: Seq<(Seq<char>, V)>, k: Seq<char>)
    ensures
        match assoc_find(s, k) {
            Some(v) => exists|i: int| 0 <= i < s.len() && s[i] == (k, v),
            None => true,
        },
    decreases s,
{
    if s.len() > 0 {
        if s[0].0 == k {
            assert(s[0] == (k, s[0].1));
        } else {
            lemma_assoc_find_in(s.drop_first(), k);
            match assoc_find(s, k) {
                Some(v) => {
                    let i = choose|i: int|
                        0 <= i < s.drop_first().len() && s.drop_first()[i] == (k, v);
                    assert(s[i + 1] == (k, v));
                },
                None => {},
            }
        }
    }
}

/// Every entry after a store is the stored pair or an entry that was
/// already there.
pub proof fn lemma_assoc_set_entries<V>(s: Seq<(Seq<char>, V)>, k: Seq<char>, v: V)
    ensures
        forall|i: int|
            0 <= i < assoc_set(s, k, v).len() ==> (#[trigger] assoc_set(s, k, v)[i]) == (k, v)
                || exists|j: int| 0 <= j < s.len() && s[j] == assoc_set(s, k, v)[i],
    decreases s,
{
    let t = assoc_set(s, k, v);
    if s.len() == 0 {
    } else if s[0].0 == k {
        assert forall|i: int|
            0 <= i < t.len() implies (#[trigger] t[i]) == (k, v) || exists|j: int|
            0 <= j < s.len() && s[j] == t[i] by {
            if i > 0 {
                assert(t[i] == s[i]);
            }
        }
    } else {
        lemma_assoc_set_entries(s.drop_first(), k, v);
        assert forall|i: int|
            0 <= i < t.len() implies (#[trigger] t[i]) == (k, v) || exists|j: int|
            0 <= j < s.len() && s[j] == t[i] by {
            if i == 0 {
                assert(t[0] == s[0]);
            } else {
                let ti = assoc_set(s.drop_first(), k, v)[i - 1];
                assert(t[i] == ti);
                if ti != (k, v) {
                    let j = choose|j: int|
                        0 <= j < s.drop_first().len() && s.drop_first()[j] == ti;
                    assert(s[j + 1] == ti);
                }
            }
        }
    }
}

/// A key under no entry is not found.
pub proof fn lemma_assoc_find_absent<V>(s: Seq<(Seq<char>, V)>, k: Seq<char>)
    requires
        forall|i: int| 0 <= i < s.len() ==> s[i].0 != k,
    ensures
        assoc_find(s, k) is None,
    decreases s,
{
    if s.len() > 0 {
        lemma_assoc_find_absent(s.drop_first(), k);
    }
}

// ---------------------------------------------------------------------------
// A name-keyed table of plain values
// ---------------------------------------------------------------------------

/// A small association table from name to a copyable value, with one
/// entry per name; storing under an existing name replaces its value in
/// place.
pub struct NamedTable<V> {
    items: Vec<(String, V)>,
}

impl<V: Copy> View for NamedTable<V> {
    type V = Seq<(Seq<char>, V)>;

    closed spec fn view(&self) -> Seq<(Seq<char>, V)> {
        Seq::new(self.items@.len(), |i: int| (self.items@[i].0@, self.items@[i].1))
    }
}

impl<V: Copy> NamedTable<V> {
    pub closed spec fn wf(&self) -> bool {
        assoc_distinct(self@)
    }

    pub fn new() -> (r: NamedTable<V>)
        ensures
            r.wf(),
            r@ =~= Seq::<(Seq<char>, V)>::empty(),
    {
        let r = NamedTable { items: Vec::new() };
        proof {
            assert(r@ =~= Seq::<(Seq<char>, V)>::empty());
        }
        r
    }

    pub fn find(&self, k: &String) -> (r: Option<V>)
        requires
            self.wf(),
        ensures
            r == assoc_find(self@, k@),
    {
        let mut i: usize = 0;
        while i < self.items.len()
            invariant
                self.wf(),
                i <= self.items@.len(),
                forall|j: int| 0 <= j < i ==> self.items@[j].0@ != k@,
            decreases self.items@.len() - i,
        {
            if self.items[i].0 == *k {
                proof {
                    lemma_assoc_find_at(self@, i as int);
                }
                return Some(self.items[i].1);
            }
            i += 1;
        }
        proof {
            lemma_assoc_find_absent(self@, k@);
        }
        None
    }

    pub fn set(&mut self, k: &String, v: V)
        requires
            old(self).wf(),
        ensures
            final(self).wf(),
            final(self)@ == assoc_set(old(self)@, k@, v),
    {
        let ghost kk = k@;
        let mut i: usize = 0;
        let mut found: bool = false;
        while i < self.items.len() && !found
            invariant
                i <= self.items@.len(),
                !found ==> forall|j: int| 0 <= j < i ==> self.items@[j].0@ != kk,
                found ==> i < self.items@.len() && self.items@[i as int].0@ == kk,
                k@ == kk,
            decreases self.items@.len() - i + (if found { 0int } else { 1int }),
        {
            if self.items[i].0 == *k {
                found = true;
            } else {
                i += 1;
            }
        }
        proof {
            lemma_assoc_set_shape(old(self)@, kk, v, i as int, found);
        }
        let p: (String, V) = (k.clone(), v);
        if found {
            self.items.set(i, p);
        } else {
            self.items.push(p);
        }
        proof {
            if found {
                assert(self@ =~= old(self)@.update(i as int, (kk, v)));
            } else {
                assert(self@ =~= old(self)@.push((kk, v)));
            }
            lemma_assoc_set(old(self)@, kk, v);
        }
    }
}

// ---------------------------------------------------------------------------
// Templates
// ---------------------------------------------------------------------------

/// The table of parsed function templates, keyed by source name. It is
/// filled once, before any body is checked, and read-only afterwards.
pub struct Templates {
    items: Vec<Template>,
}

impl View for Templates {
    type V = Seq<(Seq<char>, TemplateV)>;

    closed spec fn view(&self) -> Seq<(Seq<char>, TemplateV)> {
        Seq::new(self.items@.len(), |i: int| (self.items@[i].name@, self.items@[i]@))
    }
}

impl Templates {
    pub closed spec fn wf(&self) -> bool {
        assoc_distinct(self@)
    }

    pub fn new() -> (r: Templates)
        ensures
            r.wf(),
            r@ =~= Seq::<(Seq<char>, TemplateV)>::empty(),
    {
        let r = Templates { items: Vec::new() };
        proof {
            assert(r@ =~= Seq::<(Seq<char>, TemplateV)>::empty());
        }
        r
    }

    /// Register a template under its name; a later template of the same
    /// name replaces the earlier one.
    pub fn register(&mut self, t: Template)
        requires
            old(self).wf(),
        ensures
            final(self).wf(),
            final(self)@ == assoc_set(old(self)@, t@.name, t@),
    {
        let ghost k = t.name@;
        let ghost v = t@;
        let mut i: usize = 0;
        let mut found: bool = false;
        while i < self.items.len() && !found
            invariant
                i <= self.items@.len(),
                !found ==> forall|j: int| 0 <= j < i ==> self.items@[j].name@ != k,
                found ==> i < self.items@.len() && self.items@[i as int].name@ == k,
                t.name@ == k,
                t@ == v,
            decreases self.items@.len() - i + (if found { 0int } else { 1int }),
        {
            if self.items[i].name == t.name {
                found = true;
            } else {
                i += 1;
            }
        }
        proof {
            lemma_assoc_set_shape(old(self)@, k, v, i as int, found);
        }
        if found {
            self.items.set(i, t);
        } else {
            self.items.push(t);
        }
        proof {
            if found {
                assert(self@ =~= old(self)@.update(i as int, (k, v)));
            } else {
                assert(self@ =~= old(self)@.push((k, v)));
            }
            lemma_assoc_set(old(self)@, k, v);
        }
    }

    /// Look a template up by source name.
    pub fn find(&self, name: &String) -> (r: Option<&Template>)
        requires
            self.wf(),
        ensures
            match r {
                Some(t) => assoc_find(self@, name@) == Some(t@),
                None => assoc_find(self@, name@) is None,
            },
    {
        let mut i: usize = 0;
        while i < self.items.len()
            invariant
                self.wf(),
                i <= self.items@.len(),
                forall|j: int| 0 <= j < i ==> self.items@[j].name@ != name@,
            decreases self.items@.len() - i,
        {
            if self.items[i].name == *name {
                proof {
                    lemma_assoc_find_at(self@, i as int);
                }
                return Some(&self.items[i]);
            }
            i += 1;
        }
        proof {
            lemma_assoc_find_absent(self@, name@);
        }
        None
    }
}

// `assoc_set` on a distinct sequence is an update in place when the key is
// already there (at position `i`), and an append when it is absent.
proof fn lemma_assoc_set_shape<V>(s: Seq<(Seq<char>, V)>, k: Seq<char>, v: V, i: int, found: bool)
    requires
        assoc_distinct(s),
        found ==> 0 <= i < s.len() && s[i].0 == k,
        !found ==> forall|j: int| 0 <= j < s.len() ==> s[j].0 != k,
    ensures
        found ==> assoc_set(s, k, v) == s.update(i, (k, v)),
        !found ==> assoc_set(s, k, v) == s.push((k, v)),
    decreases s,
{
    if s.len() == 0 {
        if !found {
            assert(assoc_set(s, k, v) =~= s.push((k, v)));
        }
    } else if s[0].0 == k {
        assert(found ==> i == 0);
        if found {
            assert(assoc_set(s, k, v) =~= s.update(0, (k, v)));
        }
    } else {
        if found {
            assert(s.drop_first()[i - 1] == s[i]);
            lemma_assoc_set_shape(s.drop_first(), k, v, i - 1, true);
            assert(assoc_set(s, k, v) =~= s.update(i, (k, v)));
        } else {
            lemma_assoc_set_shape(s.drop_first(), k, v, i, false);
            assert(assoc_set(s, k, v) =~= s.push((k, v)));
        }
    }
}

// ---------------------------------------------------------------------------
// Concrete functions
// ---------------------------------------------------------------------------

/// A fully specialized function: mangled name, resolved parameters,
/// resolved return type, and a body annotated with a final type on every
/// node.
#[derive(Debug)]
pub struct ConcreteFn {
    pub mangled: String,
    pub params: Vec<Param>,
    pub ret: Type,
    pub body: Expr,
}

pub struct ConcreteFnV {
    pub mangled: Seq<char>,
    pub params: Seq<ParamV>,
    pub ret: Type,
    pub body: ExprV,
}

impl View for ConcreteFn {
    type V = ConcreteFnV;

    open spec fn view(&self) -> ConcreteFnV {
        ConcreteFnV {
            mangled: self.mangled@,
            params: Seq::new(self.params@.len(), |i: int| self.params@[i]@),
            ret: self.ret,
            body: self.body@,
        }
    }
}

impl ConcreteFn {
    /// The signature this function was specialized for: its argument
    /// types and its resolved return type.
    pub fn sig(&self) -> (s: crate::mangle::FnSig)
        ensures
            s.out_ty == self.ret,
            s.arg_ty@.len() == self.params@.len(),
            forall|i: int| 0 <= i < self.params@.len() ==> s.arg_ty@[i] == self.params@[i].ty,
    {
        let mut arg_ty: Vec<Type> = Vec::new();
        let mut i: usize = 0;
        while i < self.params.len()
            invariant
                i <= self.params@.len(),
                arg_ty@.len() == i,
                forall|j: int| 0 <= j < i ==> arg_ty@[j] == self.params@[j].ty,
            decreases self.params@.len() - i,
        {
            arg_ty.push(self.params[i].ty);
            i += 1;
        }
        crate::mangle::FnSig { arg_ty, out_ty: self.ret }
    }
}

/// A cache slot: reserved with the declared return-type hint, or filled
/// with the finished function.
#[derive(Debug)]
pub enum Entry {
    Provisional(Type),
    Done(ConcreteFn),
}

pub enum EntryV {
    Provisional(Type),
    Done(ConcreteFnV),
}

impl View for Entry {
    type V = EntryV;

    open spec fn view(&self) -> EntryV {
        match self {
            Entry::Provisional(t) => EntryV::Provisional(*t),
            Entry::Done(f) => EntryV::Done(f@),
        }
    }
}

/// The return type a cache slot answers with.
pub open spec fn entry_ret(e: EntryV) -> Type {
    match e {
        EntryV::Provisional(t) => t,
        EntryV::Done(f) => f.ret,
    }
}

/// The cache of concrete functions, keyed by mangled name, in reservation
/// order.
pub struct ConcreteTable {
    items: Vec<(String, Entry)>,
}

impl View for ConcreteTable {
    type V = Seq<(Seq<char>, EntryV)>;

    closed spec fn view(&self) -> Seq<(Seq<char>, EntryV)> {
        Seq::new(self.items@.len(), |i: int| (self.items@[i].0@, self.items@[i].1@))
    }
}

impl ConcreteTable {
    pub closed spec fn wf(&self) -> bool {
        assoc_distinct(self@)
    }

    pub fn new() -> (r: ConcreteTable)
        ensures
            r.wf(),
            r@ =~= Seq::<(Seq<char>, EntryV)>::empty(),
    {
        let r = ConcreteTable { items: Vec::new() };
        proof {
            assert(r@ =~= Seq::<(Seq<char>, EntryV)>::empty());
        }
        r
    }

    /// The return type recorded under a mangled name: the hint of a
    /// reserved slot, or the resolved return type of a filled one.
    pub fn get_ret(&self, m: &String) -> (r: Option<Type>)
        requires
            self.wf(),
        ensures
            match assoc_find(self@, m@) {
                Some(e) => r == Some(entry_ret(e)),
                None => r is None,
            },
    {
        let mut i: usize = 0;
        while i < self.items.len()
            invariant
                self.wf(),
                i <= self.items@.len(),
                forall|j: int| 0 <= j < i ==> self.items@[j].0@ != m@,
            decreases self.items@.len() - i,
        {
            if self.items[i].0 == *m {
                proof {
                    lemma_assoc_find_at(self@, i as int);
                }
                return Some(
                    match &self.items[i].1 {
                        Entry::Provisional(t) => *t,
                        Entry::Done(f) => f.ret,
                    },
                );
            }
            i += 1;
        }
        proof {
            lemma_assoc_find_absent(self@, m@);
        }
        None
    }

    /// Store an entry under a mangled name: fill the slot that carries the
    /// name, or reserve a fresh one at the end.
    pub fn set(&mut self, m: &String, e: Entry)
        requires
            old(self).wf(),
        ensures
            final(self).wf(),
            final(self)@ == assoc_set(old(self)@, m@, e@),
    {
        let ghost k = m@;
        let ghost v = e@;
        let mut i: usize = 0;
        let mut found: bool = false;
        while i < self.items.len() && !found
            invariant
                i <= self.items@.len(),
                !found ==> forall|j: int| 0 <= j < i ==> self.items@[j].0@ != k,
                found ==> i < self.items@.len() && self.items@[i as int].0@ == k,
                m@ == k,
            decreases self.items@.len() - i + (if found { 0int } else { 1int }),
        {
            if self.items[i].0 == *m {
                found = true;
            } else {
                i += 1;
            }
        }
        proof {
            lemma_assoc_set_shape(old(self)@, k, v, i as int, found);
        }
        let p: (String, Entry) = (m.clone(), e);
        if found {
            self.items.set(i, p);
        } else {
            self.items.push(p);
        }
        proof {
            if found {
                assert(self@ =~= old(self)@.update(i as int, (k, v)));
            } else {
                assert(self@ =~= old(self)@.push((k, v)));
            }
            lemma_assoc_set(old(self)@, k, v);
        }
    }

    /// Hand out the finished functions, in reservation order.
    pub fn into_fns(self) -> (r: Vec<ConcreteFn>)
        ensures
            view_concrete_fns(r@) == done_fns(self@),
    {
        let mut items = self.items;
        let ghost full = self@;
        let mut out: Vec<ConcreteFn> = Vec::new();
        proof {
            assert(table_view(items@) =~= full);
            assert(view_concrete_fns(out@) + done_fns(table_view(items@)) =~= done_fns(full));
        }
        while items.len() > 0
            invariant
                view_concrete_fns(out@) + done_fns(table_view(items@)) =~= done_fns(full),
            decreases items@.len(),
        {
            let ghost pre = table_view(items@);
            let ghost outpre = view_concrete_fns(out@);
            let p = items.remove(0);
            proof {
                assert(table_view(items@) =~= pre.drop_first());
            }
            match p.1 {
                Entry::Done(f) => {
                    let ghost fv = f@;
                    out.push(f);
                    proof {
                        assert(view_concrete_fns(out@) =~= outpre.push(fv));
                        assert(done_fns(pre) == seq![fv] + done_fns(pre.drop_first()));
                        assert(outpre.push(fv) + done_fns(pre.drop_first()) =~= outpre + (
                        seq![fv] + done_fns(pre.drop_first())));
                    }
                },
                Entry::Provisional(_) => {
                    proof {
                        assert(view_concrete_fns(out@) =~= outpre);
                        assert(done_fns(pre) == done_fns(pre.drop_first()));
                    }
                },
            }
        }
        proof {
            assert(table_view(items@) =~= Seq::<(Seq<char>, EntryV)>::empty());
            assert(view_concrete_fns(out@) =~= done_fns(full));
        }
        out
    }
}

/// The view of a vector of concrete functions.
pub open spec fn view_concrete_fns(s: Seq<ConcreteFn>) -> Seq<ConcreteFnV> {
    Seq::new(s.len(), |i: int| s[i]@)
}

/// The filled slots of the cache, in order, keys dropped.
pub open spec fn done_fns(s: Seq<(Seq<char>, EntryV)>) -> Seq<ConcreteFnV>
    decreases s,
{
    if s.len() == 0 {
        Seq::empty()
    } else {
        match s[0].1 {
            EntryV::Done(f) => seq![f] + done_fns(s.drop_first()),
            EntryV::Provisional(_) => done_fns(s.drop_first()),
        }
    }
}

spec fn table_view(items: Seq<(String, Entry)>) -> Seq<(Seq<char>, EntryV)> {
    Seq::new(items.len(), |i: int| (items[i].0@, items[i].1@))
}

} // verus!
