//! Shader programs and their uniform caches.
use vstd::prelude::*;

use crate::device::{DeviceCall, UniformValue};

verus! {

/// Why a shader pipeline could not be built.
#[derive(Clone, Debug, PartialEq, Eq)]
pub enum PipelineError {
    /// A shader failed to compile; the driver's message.
    Shader(String),
    /// A shader's source could not be read; the reason.
    Io(String),
    /// The device did not create a program object.
    ProgramCreation,
}

/// Why a program failed to link or validate.
#[derive(Clone, Debug, PartialEq, Eq)]
pub enum LinkError {
    /// The device reported a failed status, with its info log (empty when it had none).
    Other(String),
    /// The device reported an error code.
    Gl(u32),
}

/// A device-side program object.
#[derive(Clone, Copy, Debug, PartialEq, Eq, Structural)]
pub struct RawProgram {
    pub id: u32,
}

impl RawProgram {
    /// Wraps the handle of a program object that the device created.
    /// The device never hands out handle zero for a created program.
    pub fn new(id: u32) -> (r: RawProgram)
        requires
            id > 0,
        ensures
            r.id == id,
    {
        RawProgram { id }
    }
}

/// A program object whose shaders are being attached.
pub struct ProgramBuilder {
    pub raw: RawProgram,
}

/// The status check after a link or validate step: a status of zero is a
/// failure that carries the info log, or an empty message without one.
pub fn check_program_status(status: i32, info_log: Option<String>) -> (r: Result<(), LinkError>)
    ensures
        status != 0 ==> r is Ok,
        status == 0 ==> (r matches Err(LinkError::Other(m)) && m@ == match info_log {
            Some(s) => s@,
            None => Seq::<char>::empty(),
        }),
{
    if status == 0 {
        match info_log {
            Some(s) => Err(LinkError::Other(s)),
            None => Err(LinkError::Other(String::new())),
        }
    } else {
        Ok(())
    }
}

impl ProgramBuilder {
    /// Starts building on a created program object.
    pub fn new(raw: RawProgram) -> (r: ProgramBuilder)
        ensures
            r.raw == raw,
    {
        ProgramBuilder { raw }
    }

    /// Attaches a compiled shader.
    pub fn attach_shader(&self, shader: u32, calls: &mut Vec<DeviceCall>)
        ensures
            final(calls)@ == old(calls)@.push(
                DeviceCall::AttachShader { program: self.raw.id, shader },
            ),
    {
        calls.push(DeviceCall::AttachShader { program: self.raw.id, shader });
    }

    /// Finishes the program from the device's link and validate statuses and
    /// their info logs: a failed link wins over a failed validation.
    pub fn link(
        self,
        link_status: i32,
        link_log: Option<String>,
        validate_status: i32,
        validate_log: Option<String>,
    ) -> (r: Result<Program, LinkError>)
        ensures
            link_status != 0 && validate_status != 0 <==> r is Ok,
            r matches Ok(p) ==> p.raw == self.raw && p.uniform_cache@.len() == 0,
            link_status == 0 ==> (r matches Err(LinkError::Other(m)) && m@ == match link_log {
                Some(s) => s@,
                None => Seq::<char>::empty(),
            }),
            link_status != 0 && validate_status == 0 ==> (r matches Err(LinkError::Other(m))
                && m@ == match validate_log {
                Some(s) => s@,
                None => Seq::<char>::empty(),
            }),
    {
        match check_program_status(link_status, link_log) {
            Err(e) => {
                return Err(e);
            },
            Ok(()) => {},
        }
        match check_program_status(validate_status, validate_log) {
            Err(e) => {
                return Err(e);
            },
            Ok(()) => {},
        }
        Ok(Program { raw: self.raw, uniform_cache: Vec::new() })
    }
}

/// A linked program with its uniform cache.
///
/// The name of the uniform cached in slot `i` is `uniform_cache[i]`.
pub struct Program {
    pub raw: RawProgram,
    pub uniform_cache: Vec<String>,
}

/// The names of a uniform cache.
pub open spec fn names_of(cache: Seq<String>) -> Seq<Seq<char>> {
    cache.map_values(|s: String| s@)
}

/// No name is cached twice.
pub open spec fn distinct_names(names: Seq<Seq<char>>) -> bool {
    forall|i: int, j: int| 0 <= i < j < names.len() ==> names[i] != names[j]
}

/// The slot of a cached name.
pub open spec fn slot_of_name(names: Seq<Seq<char>>, name: Seq<char>) -> int {
    choose|i: int| 0 <= i < names.len() && names[i] == name
}

/// The slot that setting uniform `name` uses: its cached slot, or the next free one.
pub open spec fn uniform_slot(names: Seq<Seq<char>>, name: Seq<char>) -> int {
    if names.contains(name) {
        slot_of_name(names, name)
    } else {
        names.len() as int
    }
}

/// The cache's names after setting uniform `name`.
pub open spec fn set_uniform_names(names: Seq<Seq<char>>, name: Seq<char>) -> Seq<Seq<char>> {
    if names.contains(name) {
        names
    } else {
        names.push(name)
    }
}

/// The commands that setting uniform `name` issues: the program bind, a
/// resolution only on a cache miss, and the set.
pub open spec fn set_uniform_calls(
    names: Seq<Seq<char>>,
    program: u32,
    name: Seq<char>,
    value: UniformValue,
) -> Seq<DeviceCall> {
    let slot = uniform_slot(names, name) as usize;
    if names.contains(name) {
        seq![
            DeviceCall::UseProgram { program },
            DeviceCall::SetUniform { program, slot, value },
        ]
    } else {
        seq![
            DeviceCall::UseProgram { program },
            DeviceCall::ResolveUniform { program, slot },
            DeviceCall::SetUniform { program, slot, value },
        ]
    }
}

impl Program {
    /// The uniform cache holds each name at most once.
    pub open spec fn wf(&self) -> bool {
        distinct_names(names_of(self.uniform_cache@))
    }

    /// Makes this program the device's active one.
    pub fn bind(&self, calls: &mut Vec<DeviceCall>)
        ensures
            final(calls)@ == old(calls)@.push(DeviceCall::UseProgram { program: self.raw.id }),
    {
        calls.push(DeviceCall::UseProgram { program: self.raw.id });
    }

    /// The cached slot of uniform `name`, if it has one.
    fn cached_slot(&self, name: &String) -> (r: Option<usize>)
        requires
            self.wf(),
        ensures
            r is Some <==> names_of(self.uniform_cache@).contains(name@),
            r matches Some(i) ==> i == slot_of_name(names_of(self.uniform_cache@), name@),
    {
        let ghost names = names_of(self.uniform_cache@);
        let n = self.uniform_cache.len();
        let mut i: usize = 0;
        while i < n
            invariant
                n == self.uniform_cache@.len(),
                self.wf(),
                names == names_of(self.uniform_cache@),
                i <= n,
                forall|j: int| 0 <= j < i ==> names[j] != name@,
            decreases n - i,
        {
            if self.uniform_cache[i] == *name {
                assert(names[i as int] == name@);
                assert(names.contains(name@));
                let ghost k = slot_of_name(names, name@);
                assert(0 <= k < names.len() && names[k] == name@);
                proof {
                    if k < i as int {
                        assert(names[k] != names[i as int]);
                    } else if k > i as int {
                        assert(names[i as int] != names[k]);
                    }
                }
                return Some(i);
            }
            i = i + 1;
        }
        assert(!names.contains(name@));
        None
    }

    /// Sets uniform `name` to `value`. The program is bound first; the
    /// uniform's handle is resolved only the first time its name is used, and
    /// cached from then on.
    pub fn set_uniform(&mut self, name: &String, value: UniformValue, calls: &mut Vec<DeviceCall>)
        requires
            old(self).wf(),
        ensures
            final(self).wf(),
            final(self).raw == old(self).raw,
            names_of(final(self).uniform_cache@) == set_uniform_names(
                names_of(old(self).uniform_cache@),
                name@,
            ),
            final(calls)@ == old(calls)@ + set_uniform_calls(
                names_of(old(self).uniform_cache@),
                old(self).raw.id,
                name@,
                value,
            ),
            names_of(final(self).uniform_cache@).contains(name@),
            slot_of_name(names_of(final(self).uniform_cache@), name@) == uniform_slot(
                names_of(old(self).uniform_cache@),
                name@,
            ),
    {
        let ghost names = names_of(self.uniform_cache@);
        self.bind(calls);
        let program = self.raw.id;
        match self.cached_slot(name) {
            Some(slot) => {
                calls.push(DeviceCall::SetUniform { program, slot, value });
            },
            None => {
                let slot = self.uniform_cache.len();
                calls.push(DeviceCall::ResolveUniform { program, slot });
                calls.push(DeviceCall::SetUniform { program, slot, value });
                self.uniform_cache.push(name.clone());
                let ghost names1 = names_of(self.uniform_cache@);
                proof {
                    assert(names1 =~= names.push(name@));
                    assert(names1[slot as int] == name@);
                    assert(names1.contains(name@));
                    let k = slot_of_name(names1, name@);
                    assert(0 <= k < names1.len() && names1[k] == name@);
                    if k < slot as int {
                        assert(names[k] == names1[k]);
                    }
                }
            },
        }
        assert(calls@ =~= old(calls)@ + set_uniform_calls(names, program, name@, value));
    }
}

} // verus!

verus! {

/// The number of uniform resolutions among `calls`.
pub open spec fn count_resolves(calls: Seq<DeviceCall>) -> nat
    decreases calls.len(),
{
    if calls.len() == 0 {
        0
    } else {
        (if calls[0] is ResolveUniform {
            1nat
        } else {
            0nat
        }) + count_resolves(calls.skip(1))
    }
}

/// The number of uniform sets among `calls`.
pub open spec fn count_sets(calls: Seq<DeviceCall>) -> nat
    decreases calls.len(),
{
    if calls.len() == 0 {
        0
    } else {
        (if calls[0] is SetUniform {
            1nat
        } else {
            0nat
        }) + count_sets(calls.skip(1))
    }
}

/// The cache's names and the commands issued after setting uniform `name`
/// `n` times in a row, starting from a cache holding `names`.
pub open spec fn repeat_set_uniform(
    names: Seq<Seq<char>>,
    program: u32,
    name: Seq<char>,
    value: UniformValue,
    n: nat,
) -> (Seq<Seq<char>>, Seq<DeviceCall>)
    decreases n,
{
    if n == 0 {
        (names, Seq::empty())
    } else {
        let prev = repeat_set_uniform(names, program, name, value, (n - 1) as nat);
        (
            set_uniform_names(prev.0, name),
            prev.1 + set_uniform_calls(prev.0, program, name, value),
        )
    }
}

proof fn lemma_counts_add(a: Seq<DeviceCall>, b: Seq<DeviceCall>)
    ensures
        count_resolves(a + b) == count_resolves(a) + count_resolves(b),
        count_sets(a + b) == count_sets(a) + count_sets(b),
    decreases a.len(),
{
    if a.len() == 0 {
        assert(a + b =~= b);
    } else {
        assert((a + b).skip(1) =~= a.skip(1) + b);
        assert((a + b)[0] == a[0]);
        lemma_counts_add(a.skip(1), b);
    }
}

proof fn lemma_set_uniform_counts(
    names: Seq<Seq<char>>,
    program: u32,
    name: Seq<char>,
    value: UniformValue,
)
    ensures
        count_resolves(set_uniform_calls(names, program, name, value)) == if names.contains(
            name,
        ) {
            0nat
        } else {
            1nat
        },
        count_sets(set_uniform_calls(names, program, name, value)) == 1,
        set_uniform_names(names, name).contains(name),
{
    let c = set_uniform_calls(names, program, name, value);
    let empty = Seq::<DeviceCall>::empty();
    assert(count_resolves(empty) == 0 && count_sets(empty) == 0);
    if names.contains(name) {
        assert(c.skip(1).skip(1) =~= empty);
        assert(c.skip(1)[0] == c[1]);
        assert(count_resolves(c.skip(1)) == 0);
        assert(count_sets(c.skip(1)) == 1);
    } else {
        assert(c.skip(1).skip(1).skip(1) =~= empty);
        assert(c.skip(1)[0] == c[1]);
        assert(c.skip(1).skip(1)[0] == c[2]);
        assert(count_resolves(c.skip(1).skip(1)) == 0);
        assert(count_sets(c.skip(1).skip(1)) == 1);
        assert(count_resolves(c.skip(1)) == 1);
        assert(count_sets(c.skip(1)) == 1);
        assert(names.push(name)[names.len() as int] == name);
    }
}

/// Setting the same uniform `n` times in a row issues `n` sets and resolves
/// the name at most once: once when it was not cached before, never when it was.
pub proof fn lemma_uniform_resolved_once(
    names: Seq<Seq<char>>,
    program: u32,
    name: Seq<char>,
    value: UniformValue,
    n: nat,
)
    ensures
        count_resolves(repeat_set_uniform(names, program, name, value, n).1) == if n > 0
            && !names.contains(name) {
            1nat
        } else {
            0nat
        },
        count_sets(repeat_set_uniform(names, program, name, value, n).1) == n,
        n > 0 ==> repeat_set_uniform(names, program, name, value, n).0.contains(name),
        names.contains(name) ==> repeat_set_uniform(names, program, name, value, n).0 == names,
    decreases n,
{
    if n == 0 {
        assert(count_resolves(Seq::<DeviceCall>::empty()) == 0);
        assert(count_sets(Seq::<DeviceCall>::empty()) == 0);
    } else {
        lemma_uniform_resolved_once(names, program, name, value, (n - 1) as nat);
        let prev = repeat_set_uniform(names, program, name, value, (n - 1) as nat);
        lemma_counts_add(prev.1, set_uniform_calls(prev.0, program, name, value));
        lemma_set_uniform_counts(prev.0, program, name, value);
    }
}

} // verus!
