//! A model of the rendering context: which program is bound and what each
//! uniform holds, with the laws that binding and setting obey.

use vstd::prelude::*;

use crate::shader::{uniform_call, ContextCall, UniformValue};

verus! {

/// One recorded uniform value: which program, which location, what value.
#[derive(Debug, Clone, Copy, PartialEq, Eq)]
pub struct UniformEntry {
    pub program: u32,
    pub location: i32,
    pub value: UniformValue,
}

/// The state of a rendering context that programs are bound in and whose
/// uniforms are set: the current program and every uniform value set so far.
///
/// It records the effect of each `ContextCall` as the graphics context
/// applies it, so it can stand in for a context and be read back.
#[derive(Debug)]
pub struct ContextState {
    current: Option<u32>,
    entries: Vec<UniformEntry>,
}

/// A `ContextState` as mathematics: the current program, and the value of
/// each uniform keyed by program and location.
pub struct ContextModel {
    pub current: Option<u32>,
    pub uniforms: Map<(u32, i32), UniformValue>,
}

/// The key an entry records its value under.
pub open spec fn key_of(e: UniformEntry) -> (u32, i32) {
    (e.program, e.location)
}

/// The values that a list of entries records: a later entry under a key
/// overrides an earlier one.
pub open spec fn table(s: Seq<UniformEntry>) -> Map<(u32, i32), UniformValue>
    decreases s.len(),
{
    if s.len() == 0 {
        Map::empty()
    } else {
        table(s.drop_last()).insert(key_of(s.last()), s.last().value)
    }
}

/// The uniform values with those of one program left out.
pub open spec fn without_program(m: Map<(u32, i32), UniformValue>, program: u32) -> Map<
    (u32, i32),
    UniformValue,
> {
    Map::new(|k: (u32, i32)| m.contains_key(k) && k.0 != program, |k: (u32, i32)| m[k])
}

/// The effect of one call on the context. Binding replaces the current
/// program. Setting a uniform writes to the current program, and is ignored
/// where no program is current or the location names no uniform. Deleting a
/// program forgets its uniform values; a deleted program that is current
/// stays current until another is bound.
pub open spec fn after(m: ContextModel, call: ContextCall) -> ContextModel {
    match call {
        ContextCall::UseProgram { program } => ContextModel {
            current: Some(program),
            uniforms: m.uniforms,
        },
        ContextCall::SetUniform { location, value } => match m.current {
            Some(p) => if location >= 0 {
                ContextModel { current: m.current, uniforms: m.uniforms.insert((p, location), value) }
            } else {
                m
            },
            None => m,
        },
        ContextCall::DeleteProgram { program } => ContextModel {
            current: m.current,
            uniforms: without_program(m.uniforms, program),
        },
    }
}

/// The context after a call that may not be made: unchanged where there is none.
pub open spec fn after_opt(m: ContextModel, call: Option<ContextCall>) -> ContextModel {
    match call {
        Some(c) => after(m, c),
        None => m,
    }
}

impl View for ContextState {
    type V = ContextModel;

    closed spec fn view(&self) -> ContextModel {
        ContextModel { current: self.current, uniforms: table(self.entries@) }
    }
}

/// Whether `i` is the last index of `s` whose entry has key `k`.
spec fn last_with_key(s: Seq<UniformEntry>, i: int, k: (u32, i32)) -> bool {
    &&& 0 <= i < s.len()
    &&& key_of(s[i]) == k
    &&& forall|j: int| i < j < s.len() ==> key_of(#[trigger] s[j]) != k
}

proof fn lemma_table_last(s: Seq<UniformEntry>, i: int, k: (u32, i32))
    requires
        last_with_key(s, i, k),
    ensures
        table(s).contains_key(k),
        table(s)[k] == s[i].value,
    decreases s.len(),
{
    if i < s.len() - 1 {
        assert(key_of(s[s.len() - 1]) != k);
        lemma_table_last(s.drop_last(), i, k);
    }
}

proof fn lemma_table_absent(s: Seq<UniformEntry>, k: (u32, i32))
    requires
        forall|j: int| 0 <= j < s.len() ==> key_of(#[trigger] s[j]) != k,
    ensures
        !table(s).contains_key(k),
    decreases s.len(),
{
    if s.len() > 0 {
        assert(key_of(s[s.len() - 1]) != k);
        lemma_table_absent(s.drop_last(), k);
    }
}

proof fn lemma_table_update(s: Seq<UniformEntry>, i: int, e: UniformEntry)
    requires
        last_with_key(s, i, key_of(e)),
    ensures
        table(s.update(i, e)) == table(s).insert(key_of(e), e.value),
    decreases s.len(),
{
    let t = s.update(i, e);
    if i == s.len() - 1 {
        assert(t.drop_last() =~= s.drop_last());
        assert(table(t) =~= table(s).insert(key_of(e), e.value));
    } else {
        assert(key_of(s[s.len() - 1]) != key_of(e));
        assert(t.drop_last() =~= s.drop_last().update(i, e));
        lemma_table_update(s.drop_last(), i, e);
        assert(table(t) =~= table(s).insert(key_of(e), e.value));
    }
}

proof fn lemma_table_push(s: Seq<UniformEntry>, e: UniformEntry)
    ensures
        table(s.push(e)) == table(s).insert(key_of(e), e.value),
{
    assert(s.push(e).drop_last() =~= s);
}

impl ContextState {
    /// A context with no program bound and no uniform set.
    pub fn new() -> (r: ContextState)
        ensures
            r@.current is None,
            r@.uniforms == Map::<(u32, i32), UniformValue>::empty(),
    {
        ContextState { current: None, entries: Vec::new() }
    }

    /// The program that draw calls would use now.
    pub fn current_program(&self) -> (r: Option<u32>)
        ensures
            r == self@.current,
    {
        self.current
    }

    /// The last index whose entry is recorded under this program and location.
    fn find_last(&self, program: u32, location: i32) -> (r: Option<usize>)
        ensures
            match r {
                Some(i) => last_with_key(self.entries@, i as int, (program, location)),
                None => forall|j: int|
                    0 <= j < self.entries@.len() ==> key_of(#[trigger] self.entries@[j]) != (
                    program,
                    location,
                ),
            },
    {
        let mut j: usize = self.entries.len();
        while j > 0
            invariant
                j <= self.entries@.len(),
                forall|l: int|
                    j <= l < self.entries@.len() ==> key_of(#[trigger] self.entries@[l]) != (
                    program,
                    location,
                ),
            decreases j,
        {
            if self.entries[j - 1].program == program && self.entries[j - 1].location == location {
                return Some(j - 1);
            }
            j = j - 1;
        }
        None
    }

    /// The value last given to the uniform at `location` of `program`, if any.
    pub fn uniform(&self, program: u32, location: i32) -> (r: Option<UniformValue>)
        ensures
            r == (if self@.uniforms.contains_key((program, location)) {
                Some(self@.uniforms[(program, location)])
            } else {
                None
            }),
    {
        match self.find_last(program, location) {
            Some(i) => {
                proof {
                    lemma_table_last(self.entries@, i as int, (program, location));
                }
                Some(self.entries[i].value)
            },
            None => {
                proof {
                    lemma_table_absent(self.entries@, (program, location));
                }
                None
            },
        }
    }

    /// Records a value under a key, in place where the key is recorded already.
    fn record(&mut self, program: u32, location: i32, value: UniformValue)
        ensures
            final(self)@.current == old(self)@.current,
            final(self)@.uniforms == old(self)@.uniforms.insert((program, location), value),
    {
        let e = UniformEntry { program, location, value };
        match self.find_last(program, location) {
            Some(i) => {
                proof {
                    lemma_table_update(self.entries@, i as int, e);
                }
                self.entries.set(i, e);
            },
            None => {
                proof {
                    lemma_table_push(self.entries@, e);
                }
                self.entries.push(e);
            },
        }
    }

    /// Forgets every uniform value of one program.
    fn forget_program(&mut self, program: u32)
        ensures
            final(self)@.current == old(self)@.current,
            final(self)@.uniforms == without_program(old(self)@.uniforms, program),
    {
        let mut kept: Vec<UniformEntry> = Vec::new();
        let mut i: usize = 0;
        while i < self.entries.len()
            invariant
                i <= self.entries@.len(),
                table(kept@) == without_program(table(self.entries@.take(i as int)), program),
            decreases self.entries@.len() - i,
        {
            let e = self.entries[i];
            let ghost before = self.entries@.take(i as int);
            proof {
                assert(self.entries@.take(i + 1).drop_last() =~= before);
                assert(self.entries@.take(i + 1).last() == e);
            }
            if e.program != program {
                proof {
                    lemma_table_push(kept@, e);
                }
                kept.push(e);
                assert(table(kept@) =~= without_program(
                    table(self.entries@.take(i + 1)),
                    program,
                ));
            } else {
                assert(table(kept@) =~= without_program(
                    table(self.entries@.take(i + 1)),
                    program,
                ));
            }
            i = i + 1;
        }
        assert(self.entries@.take(i as int) =~= self.entries@);
        self.entries = kept;
    }

    /// Applies one call to the context.
    pub fn apply(&mut self, call: &ContextCall)
        ensures
            final(self)@ == after(old(self)@, *call),
    {
        match call {
            ContextCall::UseProgram { program } => {
                self.current = Some(*program);
            },
            ContextCall::SetUniform { location, value } => {
                if let Some(p) = self.current {
                    if *location >= 0 {
                        self.record(p, *location, *value);
                    }
                }
            },
            ContextCall::DeleteProgram { program } => {
                self.forget_program(*program);
            },
        }
    }
}

/// Binding the same program twice in a row leaves the context as binding it once.
pub proof fn lemma_use_program_idempotent(m: ContextModel, program: u32)
    ensures
        after(after(m, ContextCall::UseProgram { program }), ContextCall::UseProgram { program })
            == after(m, ContextCall::UseProgram { program }),
{
}

/// Setting a uniform that the program does not declare (its lookup gave a
/// location that names no uniform) asks for no call and changes nothing; the
/// context would ignore such a call too.
pub proof fn lemma_undeclared_uniform_no_effect(m: ContextModel, location: i32, value: UniformValue)
    requires
        location < 0,
    ensures
        uniform_call(location, value) is None,
        after_opt(m, uniform_call(location, value)) == m,
        after(m, ContextCall::SetUniform { location, value }) == m,
{
}

/// After a uniform of the current program is set, reading it back gives
/// the value set.
pub proof fn lemma_set_then_read(m: ContextModel, program: u32, location: i32, value: UniformValue)
    requires
        m.current == Some(program),
        location >= 0,
    ensures
        after_opt(m, uniform_call(location, value)).uniforms.contains_key((program, location)),
        after_opt(m, uniform_call(location, value)).uniforms[(program, location)] == value,
{
}

} // verus!
