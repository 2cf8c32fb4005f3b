//! The scope table: a stack of lexical frames, each mapping identifiers to
//! resolved types. Defining a name shadows outer frames and replaces any
//! earlier binding of the same name in the innermost frame, so a frame never
//! holds two live bindings for one name, and closing a frame restores the
//! outer binding.

use vstd::prelude::*;

use crate::types::Type;

verus! {

/// A stack of lexical frames, innermost last. At least one frame is always
/// open.
pub struct ScopeTable {
    frames: Vec<Vec<(String, Type)>>,
}

/// The bindings of one frame, as a map from name to type.
pub open spec fn frame_map(f: Seq<(String, Type)>) -> Map<Seq<char>, Type>
    decreases f,
{
    if f.len() == 0 {
        Map::empty()
    } else {
        frame_map(f.drop_last()).insert(f.last().0@, f.last().1)
    }
}

/// No two entries of a frame bind the same name.
pub open spec fn frame_distinct(f: Seq<(String, Type)>) -> bool {
    forall|i: int, j: int| 0 <= i < j < f.len() ==> f[i].0@ != f[j].0@
}

/// Innermost-first lookup over a stack of frames.
pub open spec fn stack_lookup(st: Seq<Map<Seq<char>, Type>>, n: Seq<char>) -> Option<Type>
    decreases st,
{
    if st.len() == 0 {
        None
    } else if st.last().contains_key(n) {
        Some(st.last()[n])
    } else {
        stack_lookup(st.drop_last(), n)
    }
}

impl View for ScopeTable {
    type V = Seq<Map<Seq<char>, Type>>;

    closed spec fn view(&self) -> Seq<Map<Seq<char>, Type>> {
        Seq::new(self.frames@.len(), |i: int| frame_map(self.frames@[i]@))
    }
}

// Binding a name that already stands at position `i` of a frame is the same
// map insertion as appending it, because no other entry binds that name.
proof fn lemma_frame_update(f: Seq<(String, Type)>, i: int, p: (String, Type))
    requires
        frame_distinct(f),
        0 <= i < f.len(),
        f[i].0@ == p.0@,
    ensures
        frame_map(f.update(i, p)) == frame_map(f).insert(p.0@, p.1),
    decreases f,
{
    if f.len() > 0 {
        if i == f.len() - 1 {
            assert(f.update(i, p).drop_last() =~= f.drop_last());
            assert(frame_map(f.update(i, p)) =~= frame_map(f).insert(p.0@, p.1));
        } else {
            assert(f.update(i, p).drop_last() =~= f.drop_last().update(i, p));
            lemma_frame_update(f.drop_last(), i, p);
            assert(f.last().0@ != p.0@);
            assert(frame_map(f.update(i, p)) =~= frame_map(f).insert(p.0@, p.1));
        }
    }
}

// A name bound at position `i` of a duplicate-free frame is in the frame's
// map, with the type it is bound to there.
proof fn lemma_frame_found(f: Seq<(String, Type)>, i: int)
    requires
        frame_distinct(f),
        0 <= i < f.len(),
    ensures
        frame_map(f).contains_key(f[i].0@),
        frame_map(f)[f[i].0@] == f[i].1,
    decreases f,
{
    if i < f.len() - 1 {
        lemma_frame_found(f.drop_last(), i);
    }
}

// A name bound by no entry of a frame is not in the frame's map.
proof fn lemma_frame_absent(f: Seq<(String, Type)>, n: Seq<char>)
    requires
        forall|i: int| 0 <= i < f.len() ==> f[i].0@ != n,
    ensures
        !frame_map(f).contains_key(n),
    decreases f,
{
    if f.len() > 0 {
        lemma_frame_absent(f.drop_last(), n);
    }
}

impl ScopeTable {
    /// Every frame is free of duplicate bindings.
    pub closed spec fn wf(&self) -> bool {
        forall|i: int| 0 <= i < self.frames@.len() ==> frame_distinct(#[trigger] self.frames@[i]@)
    }

    /// A fresh table with one open frame and no bindings.
    pub fn new() -> (st: ScopeTable)
        ensures
            st.wf(),
            st@ =~= seq![Map::<Seq<char>, Type>::empty()],
    {
        let mut frames: Vec<Vec<(String, Type)>> = Vec::new();
        frames.push(Vec::new());
        let st = ScopeTable { frames };
        proof {
            assert(st@ =~= seq![Map::<Seq<char>, Type>::empty()]);
        }
        st
    }

    /// Open one fresh innermost frame.
    pub fn push(&mut self)
        requires
            old(self).wf(),
        ensures
            final(self).wf(),
            final(self)@ =~= old(self)@.push(Map::empty()),
    {
        self.frames.push(Vec::new());
        proof {
            assert(final(self)@ =~= old(self)@.push(Map::empty()));
        }
    }

    /// Close the innermost frame, restoring the bindings of the frame below.
    pub fn pop(&mut self)
        requires
            old(self).wf(),
            old(self)@.len() > 1,
        ensures
            final(self).wf(),
            final(self)@ =~= old(self)@.drop_last(),
    {
        self.frames.pop();
        proof {
            assert(final(self)@ =~= old(self)@.drop_last());
        }
    }

    /// Bind `name` to `ty` in the innermost open frame, shadowing outer
    /// frames and replacing any earlier binding of the same name in that
    /// frame.
    pub fn define(&mut self, name: &String, ty: Type)
        requires
            old(self).wf(),
            old(self)@.len() >= 1,
        ensures
            final(self).wf(),
            final(self)@ =~= old(self)@.update(
                old(self)@.len() - 1,
                old(self)@.last().insert(name@, ty),
            ),
    {
        let mut fr: Vec<(String, Type)> = self.frames.pop().unwrap();
        let ghost fr0 = fr@;
        let mut i: usize = 0;
        let mut found: bool = false;
        while i < fr.len() && !found
            invariant
                fr@ == fr0,
                i <= fr@.len(),
                !found ==> forall|j: int| 0 <= j < i ==> fr@[j].0@ != name@,
                found ==> i < fr@.len() && fr@[i as int].0@ == name@,
            decreases fr@.len() - i + (if found { 0int } else { 1int }),
        {
            if fr[i].0 == *name {
                found = true;
            } else {
                i += 1;
            }
        }
        let p: (String, Type) = (name.clone(), ty);
        if found {
            proof {
                lemma_frame_update(fr@, i as int, p);
            }
            fr.set(i, p);
        } else {
            proof {
                assert(fr0.push(p).drop_last() =~= fr0);
                lemma_frame_absent(fr0, name@);
            }
            fr.push(p);
        }
        proof {
            assert(frame_map(fr@) == frame_map(fr0).insert(name@, ty));
            assert(old(self)@.last() == frame_map(fr0));
            assert forall|j: int, l: int| 0 <= j < l < fr@.len() implies fr@[j].0@ != fr@[l].0@ by {
                if found {
                    assert(fr@ == fr0.update(i as int, p));
                } else {
                    lemma_frame_absent(fr0, name@);
                }
            }
        }
        self.frames.push(fr);
        proof {
            assert(self@ =~= old(self)@.update(
                old(self)@.len() - 1,
                old(self)@.last().insert(name@, ty),
            ));
        }
    }

    /// Search the frames innermost-first and return the first binding of
    /// `name`, or `None` when no open frame binds it.
    pub fn lookup(&self, name: &String) -> (r: Option<Type>)
        requires
            self.wf(),
        ensures
            r == stack_lookup(self@, name@),
    {
        let ghost stv = self@;
        proof {
            assert(stv.take(self.frames@.len() as int) =~= stv);
        }
        let mut k: usize = self.frames.len();
        while k > 0
            invariant
                self.wf(),
                stv == self@,
                k <= self.frames@.len(),
                stack_lookup(stv, name@) == stack_lookup(stv.take(k as int), name@),
            decreases k,
        {
            k -= 1;
            let fr: &Vec<(String, Type)> = &self.frames[k];
            let mut i: usize = 0;
            while i < fr.len()
                invariant
                    self.wf(),
                    stv == self@,
                    fr@ == self.frames@[k as int]@,
                    k < self.frames@.len(),
                    stack_lookup(stv, name@) == stack_lookup(stv.take(k as int + 1), name@),
                    i <= fr@.len(),
                    forall|j: int| 0 <= j < i ==> fr@[j].0@ != name@,
                decreases fr@.len() - i,
            {
                if fr[i].0 == *name {
                    proof {
                        assert(frame_distinct(fr@));
                        lemma_frame_found(fr@, i as int);
                        assert(stv.take(k as int + 1).last() == frame_map(fr@));
                        assert(stack_lookup(stv.take(k as int + 1), name@) == Some(fr@[i as int].1));
                        assert(stack_lookup(stv, name@) == Some(fr@[i as int].1));
                    }
                    return Some(fr[i].1);
                }
                i += 1;
            }
            proof {
                lemma_frame_absent(fr@, name@);
                assert(stv.take(k as int + 1).last() == frame_map(fr@));
                assert(stv.take(k as int + 1).drop_last() =~= stv.take(k as int));
            }
        }
        proof {
            assert(stv.take(0) =~= Seq::<Map<Seq<char>, Type>>::empty());
        }
        None
    }
}

} // verus!
