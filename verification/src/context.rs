//! The process context: decoding the initial stack the kernel hands a new
//! process, and the argument sequence read from it.
//!
//! At process entry the only input is the stack pointer. The machine words
//! there are, in order: `argc`; `argc` pointers to NUL-terminated argument
//! strings; a zero word; pointers to NUL-terminated environment strings; a
//! zero word. [`decode_stack`] decodes exactly that layout, and
//! [`ProcessContext`] holds the resolved strings, written once before
//! anything else runs and never mutated afterward.

use vstd::prelude::*;

verus! {

/// A NUL-terminated byte string: it ends with the one NUL byte it holds.
pub open spec fn is_c_string(b: Seq<u8>) -> bool {
    &&& b.len() >= 1
    &&& b[b.len() - 1] == 0
    &&& forall|i: int| 0 <= i < b.len() - 1 ==> b[i] != 0
}

/// Index of the first environment word: one past `argc` argument pointers
/// and their zero terminator.
pub open spec fn env_start(s: Seq<usize>) -> int {
    s[0] + 2
}

/// The environment pointers end with a zero word at `j`, every word before
/// it (from [`env_start`]) being non-zero. At most one `j` satisfies this.
pub open spec fn env_terminator_at(s: Seq<usize>, j: int) -> bool {
    &&& env_start(s) <= j < s.len()
    &&& s[j] == 0
    &&& forall|k: int| env_start(s) <= k < j ==> s[k] != 0
}

/// The process-entry stack layout: the first word is `argc`, the next
/// `argc` words are the argument pointers, then a zero word, then the
/// environment pointers up to a zero word.
pub open spec fn stack_well_formed(s: Seq<usize>) -> bool {
    &&& s.len() >= 1
    &&& s[0] + 2 <= s.len()
    &&& s[s[0] + 1] == 0
    &&& exists|j: int| env_terminator_at(s, j)
}

/// The decoded stack: the argument count and the raw argument and
/// environment pointers, still unresolved.
pub struct StackLayout {
    /// The first word of the stack.
    pub argc: usize,
    /// The `argc` argument pointers, in their original order.
    pub argv: Vec<usize>,
    /// The environment pointers, in their original order.
    pub envp: Vec<usize>,
}

/// Decode a process-entry stack: the words starting at the stack pointer.
///
/// Returns the layout exactly when the words fit the kernel's contract —
/// for any `argc`, zero as well — and nothing otherwise. An absent
/// environment is a zero word immediately after the argument terminator
/// and decodes to an empty environment sequence.
pub fn decode_stack(stack: &Vec<usize>) -> (r: Option<StackLayout>)
    ensures
        r is Some <==> stack_well_formed(stack@),
        r matches Some(l) ==> {
            &&& l.argc == stack@[0]
            &&& l.argv@ == stack@.subrange(1, stack@[0] + 1)
            &&& l.argv@.len() == l.argc
            &&& env_terminator_at(stack@, env_start(stack@) + l.envp@.len())
            &&& l.envp@ == stack@.subrange(env_start(stack@), env_start(stack@) + l.envp@.len())
        },
{
    if stack.len() < 2 {
        return None;
    }
    let argc = stack[0];
    if argc > stack.len() - 2 {
        return None;
    }
    if stack[argc + 1] != 0 {
        return None;
    }
    let mut argv: Vec<usize> = Vec::new();
    let mut i: usize = 1;
    while i <= argc
        invariant
            1 <= i <= argc + 1,
            argc <= usize::MAX - 2,
            argc + 2 <= stack@.len(),
            argc == stack@[0],
            argv@ == stack@.subrange(1, i as int),
        decreases argc + 1 - i,
    {
        argv.push(stack[i]);
        assert(argv@ =~= stack@.subrange(1, i + 1));
        i = i + 1;
    }
    let e0 = argc + 2;
    let mut j = e0;
    let mut envp: Vec<usize> = Vec::new();
    while j < stack.len() && stack[j] != 0
        invariant
            e0 == stack@[0] + 2,
            e0 <= j <= stack@.len(),
            envp@ == stack@.subrange(e0 as int, j as int),
            forall|k: int| e0 <= k < j ==> stack@[k] != 0,
        decreases stack@.len() - j,
    {
        envp.push(stack[j]);
        assert(envp@ =~= stack@.subrange(e0 as int, j + 1));
        j = j + 1;
    }
    if j == stack.len() {
        // No zero word ends the environment block: no terminator exists at
        // all, since every word from `e0` on is non-zero.
        assert(forall|t: int| !env_terminator_at(stack@, t));
        return None;
    }
    assert(env_terminator_at(stack@, j as int));
    Some(StackLayout { argc, argv, envp })
}

/// Whether `b` is a NUL-terminated byte string.
pub fn check_c_string(b: &Vec<u8>) -> (r: bool)
    ensures
        r == is_c_string(b@),
{
    if b.len() == 0 {
        return false;
    }
    let mut i: usize = 0;
    while i < b.len() - 1
        invariant
            b@.len() >= 1,
            i <= b@.len() - 1,
            forall|k: int| 0 <= k < i ==> b@[k] != 0,
        decreases b@.len() - i,
    {
        if b[i] == 0 {
            return false;
        }
        i = i + 1;
    }
    b[b.len() - 1] == 0
}

/// The process-wide context: the resolved argument and environment
/// strings, in their original order, each NUL-terminated. Created once at
/// process start and immutable thereafter.
pub struct ProcessContext {
    args: Vec<Vec<u8>>,
    envs: Vec<Vec<u8>>,
}

impl ProcessContext {
    /// The argument strings, in order.
    pub closed spec fn args_view(&self) -> Seq<Seq<u8>> {
        self.args@.map(|i: int, a: Vec<u8>| a@)
    }

    /// The environment strings, in order.
    pub closed spec fn envs_view(&self) -> Seq<Seq<u8>> {
        self.envs@.map(|i: int, a: Vec<u8>| a@)
    }

    /// Every held string is NUL-terminated.
    pub closed spec fn wf(&self) -> bool {
        &&& forall|i: int| 0 <= i < self.args@.len() ==> is_c_string(#[trigger] self.args@[i]@)
        &&& forall|i: int| 0 <= i < self.envs@.len() ==> is_c_string(#[trigger] self.envs@[i]@)
    }

    /// Build the context from resolved strings. Succeeds exactly when every
    /// string is NUL-terminated, and keeps count and order.
    pub fn new(args: Vec<Vec<u8>>, envs: Vec<Vec<u8>>) -> (r: Option<ProcessContext>)
        ensures
            r is Some <==> {
                &&& forall|i: int| 0 <= i < args@.len() ==> is_c_string(#[trigger] args@[i]@)
                &&& forall|i: int| 0 <= i < envs@.len() ==> is_c_string(#[trigger] envs@[i]@)
            },
            r matches Some(c) ==> {
                &&& c.wf()
                &&& c.args_view() == args@.map(|i: int, a: Vec<u8>| a@)
                &&& c.envs_view() == envs@.map(|i: int, a: Vec<u8>| a@)
            },
    {
        let mut i: usize = 0;
        while i < args.len()
            invariant
                i <= args@.len(),
                forall|k: int| 0 <= k < i ==> is_c_string(#[trigger] args@[k]@),
            decreases args@.len() - i,
        {
            if !check_c_string(&args[i]) {
                return None;
            }
            i = i + 1;
        }
        let mut j: usize = 0;
        while j < envs.len()
            invariant
                j <= envs@.len(),
                forall|k: int| 0 <= k < j ==> is_c_string(#[trigger] envs@[k]@),
            decreases envs@.len() - j,
        {
            if !check_c_string(&envs[j]) {
                return None;
            }
            j = j + 1;
        }
        Some(ProcessContext { args, envs })
    }

    /// The argument count.
    pub fn argc(&self) -> (n: usize)
        ensures
            n == self.args_view().len(),
    {
        self.args.len()
    }
}

/// A cursor over the context's argument sequence, front to back.
pub struct Args<'a> {
    ctx: &'a ProcessContext,
    index: usize,
}

/// Begin reading the context's arguments from the first one.
pub fn args<'a>(ctx: &'a ProcessContext) -> (it: Args<'a>)
    ensures
        it.wf(),
        it.source() == ctx.args_view(),
        it.consumed() == 0,
{
    Args { ctx, index: 0 }
}

impl<'a> Args<'a> {
    /// The argument sequence being read.
    pub closed spec fn source(&self) -> Seq<Seq<u8>> {
        self.ctx.args_view()
    }

    /// How many arguments have been handed out.
    pub closed spec fn consumed(&self) -> int {
        self.index as int
    }

    /// The cursor never points past the end.
    pub closed spec fn wf(&self) -> bool {
        self.index <= self.ctx.args@.len()
    }

    /// The next argument in the original order, if one is left.
    pub fn next(&mut self) -> (r: Option<&'a Vec<u8>>)
        requires
            old(self).wf(),
        ensures
            final(self).wf(),
            final(self).source() == old(self).source(),
            if old(self).consumed() < old(self).source().len() {
                &&& r matches Some(a) && a@ == old(self).source()[old(self).consumed()]
                &&& final(self).consumed() == old(self).consumed() + 1
            } else {
                &&& r is None
                &&& final(self).consumed() == old(self).consumed()
            },
    {
        if self.index < self.ctx.args.len() {
            let a = &self.ctx.args[self.index];
            self.index = self.index + 1;
            Some(a)
        } else {
            None
        }
    }

    /// How many arguments are left: the count minus the number consumed.
    pub fn len(&self) -> (n: usize)
        requires
            self.wf(),
        ensures
            n == self.source().len() - self.consumed(),
    {
        self.ctx.args.len() - self.index
    }
}

} // verus!
