//! Lexically nested variable scopes with a value heap and the program's
//! captured output buffer.
//!
//! Scopes form a stack of frames; a frame's parent is the frame below it.
//! Reads walk the whole chain; `let` refuses a name bound anywhere in the
//! chain; plain and compound assignment write into the current frame only,
//! so assignment inside a nested block shadows rather than mutates an outer
//! binding — a deliberate behavior of the language, kept and documented.
//! A `return` travels to its caller as a control-flow outcome of evaluation,
//! one result slot per call, rather than through a name-keyed channel.

use vstd::prelude::*;
use crate::literal::{HeapVal, HeapValS, Literal};

verus! {

/// One lexical scope: its bindings, as symbol-table key and value.
#[derive(Clone, Debug)]
pub struct Frame {
    pub binds: Vec<(usize, Literal)>,
}

impl View for Frame {
    type V = Seq<(usize, Literal)>;

    open spec fn view(&self) -> Seq<(usize, Literal)> {
        self.binds@
    }
}

impl DeepView for Frame {
    type V = Seq<(usize, Literal)>;

    open spec fn deep_view(&self) -> Seq<(usize, Literal)> {
        self.binds@
    }
}

/// The mathematical image of an [`Env`].
pub struct EnvS {
    pub frames: Seq<Seq<(usize, Literal)>>,
    pub heap: Seq<HeapValS>,
    pub stdout: Seq<u8>,
}

/// Index of the first binding of `k` in one frame, if any.
pub open spec fn spec_find_bind(binds: Seq<(usize, Literal)>, k: usize, i: int) -> Option<int>
    decreases binds.len() - i,
{
    if i < 0 || i >= binds.len() {
        Option::None
    } else if binds[i].0 == k {
        Option::Some(i)
    } else {
        spec_find_bind(binds, k, i + 1)
    }
}

/// The value bound to `k` in one frame, if any.
pub open spec fn spec_frame_get(binds: Seq<(usize, Literal)>, k: usize) -> Option<Literal> {
    match spec_find_bind(binds, k, 0) {
        Option::Some(i) => Option::Some(binds[i].1),
        Option::None => Option::None,
    }
}

/// One frame after binding `k` to `v`: the existing entry is overwritten, a
/// new entry appended.
pub open spec fn spec_frame_set(binds: Seq<(usize, Literal)>, k: usize, v: Literal) -> Seq<
    (usize, Literal),
> {
    match spec_find_bind(binds, k, 0) {
        Option::Some(i) => binds.update(i, (k, v)),
        Option::None => binds.push((k, v)),
    }
}

/// The nearest binding of `k`, walking the frame chain from the current
/// frame outward.
pub open spec fn spec_env_get(frames: Seq<Seq<(usize, Literal)>>, k: usize) -> Option<Literal>
    decreases frames.len(),
{
    if frames.len() == 0 {
        Option::None
    } else {
        match spec_frame_get(frames.last(), k) {
            Option::Some(v) => Option::Some(v),
            Option::None => spec_env_get(frames.drop_last(), k),
        }
    }
}

/// Whether `k` is bound in the current frame or any ancestor.
pub open spec fn spec_env_has(frames: Seq<Seq<(usize, Literal)>>, k: usize) -> bool {
    spec_env_get(frames, k) is Some
}

/// The frames after writing `k = v` into the current frame only.
pub open spec fn spec_env_set(frames: Seq<Seq<(usize, Literal)>>, k: usize, v: Literal) -> Seq<
    Seq<(usize, Literal)>,
> {
    if frames.len() == 0 {
        frames
    } else {
        frames.update(frames.len() - 1, spec_frame_set(frames.last(), k, v))
    }
}

/// The runtime state of a program: the scope chain, the heap of string,
/// object and set payloads, and the captured print output.
pub struct Env {
    pub frames: Vec<Frame>,
    pub heap: Vec<HeapVal>,
    pub stdout: Vec<u8>,
}

impl Env {
    /// The mathematical image of this state.
    pub open spec fn view_s(&self) -> EnvS {
        EnvS {
            frames: self.frames.deep_view(),
            heap: self.heap.deep_view(),
            stdout: self.stdout@,
        }
    }

    /// A fresh state: one empty global frame, an empty heap, no output.
    pub fn new() -> (r: Env)
        ensures
            r.view_s().frames == seq![Seq::<(usize, Literal)>::empty()],
            r.view_s().heap == Seq::<HeapValS>::empty(),
            r.view_s().stdout == Seq::<u8>::empty(),
    {
        let mut frames: Vec<Frame> = Vec::new();
        frames.push(Frame { binds: Vec::new() });
        let r = Env { frames, heap: Vec::new(), stdout: Vec::new() };
        proof {
            assert(r.frames.deep_view() =~= seq![Seq::<(usize, Literal)>::empty()]);
            assert(r.heap.deep_view() =~= Seq::<HeapValS>::empty());
        }
        r
    }

    /// The nearest binding of `k`, current frame first, then its ancestors.
    pub fn get(&self, k: usize) -> (r: Option<Literal>)
        ensures
            r == spec_env_get(self.view_s().frames, k),
    {
        let ghost fs = self.frames.deep_view();
        let mut j: usize = self.frames.len();
        proof {
            assert(fs.subrange(0, fs.len() as int) =~= fs);
        }
        while j > 0
            invariant
                j <= self.frames@.len(),
                fs == self.frames.deep_view(),
                fs.len() == self.frames@.len(),
                spec_env_get(fs, k) == spec_env_get(fs.subrange(0, j as int), k),
            decreases j,
        {
            proof {
                assert(fs.subrange(0, j as int).last() == self.frames@[j - 1]@);
                assert(fs.subrange(0, j as int).drop_last() =~= fs.subrange(0, j - 1));
            }
            match frame_get(&self.frames[j - 1], k) {
                Some(v) => {
                    return Some(v);
                },
                None => {},
            }
            j = j - 1;
        }
        proof {
            assert(fs.subrange(0, 0) =~= Seq::<Seq<(usize, Literal)>>::empty());
        }
        None
    }

    /// Whether `k` is bound anywhere in the chain.
    pub fn has(&self, k: usize) -> (r: bool)
        ensures
            r == spec_env_has(self.view_s().frames, k),
    {
        match self.get(k) {
            Some(_) => true,
            None => false,
        }
    }

    /// Bind a new name in the current frame. Refuses — and changes nothing —
    /// when the name is already bound in this frame or any ancestor: that is
    /// the redefinition error of `let`.
    pub fn assign(&mut self, k: usize, v: Literal) -> (ok: bool)
        ensures
            ok == !spec_env_has(old(self).view_s().frames, k),
            final(self).view_s().heap == old(self).view_s().heap,
            final(self).view_s().stdout == old(self).view_s().stdout,
            (if ok {
                ({
                    let fs = old(self).view_s().frames;
                    fs.len() > 0 ==> final(self).view_s().frames == fs.update(
                        fs.len() - 1,
                        fs.last().push((k, v)),
                    )
                }) && (old(self).view_s().frames.len() == 0 ==> final(self).view_s().frames
                    == old(self).view_s().frames)
            } else {
                final(self).view_s().frames == old(self).view_s().frames
            }),
    {
        if self.has(k) {
            return false;
        }
        let n = self.frames.len();
        if n == 0 {
            return true;
        }
        let ghost fs = self.frames.deep_view();
        let fr = &mut self.frames[n - 1];
        fr.binds.push((k, v));
        proof {
            assert(self.frames.deep_view() =~= fs.update(
                fs.len() - 1,
                fs.last().push((k, v)),
            ));
        }
        true
    }

    /// Write `k = v` into the current frame unconditionally: assignment does
    /// not walk up to mutate an outer binding, it shadows it locally.
    pub fn set(&mut self, k: usize, v: Literal)
        ensures
            final(self).view_s().frames == spec_env_set(old(self).view_s().frames, k, v),
            final(self).view_s().heap == old(self).view_s().heap,
            final(self).view_s().stdout == old(self).view_s().stdout,
    {
        let n = self.frames.len();
        if n == 0 {
            return;
        }
        let ghost fs = self.frames.deep_view();
        let fr = &mut self.frames[n - 1];
        frame_set(fr, k, v);
        proof {
            assert(self.frames.deep_view() =~= fs.update(
                fs.len() - 1,
                spec_frame_set(fs.last(), k, v),
            ));
        }
    }

    /// Open a child scope.
    pub fn push_frame(&mut self)
        ensures
            final(self).view_s().frames == old(self).view_s().frames.push(
                Seq::<(usize, Literal)>::empty(),
            ),
            final(self).view_s().heap == old(self).view_s().heap,
            final(self).view_s().stdout == old(self).view_s().stdout,
    {
        let ghost fs = self.frames.deep_view();
        self.frames.push(Frame { binds: Vec::new() });
        proof {
            assert(self.frames.deep_view() =~= fs.push(Seq::<(usize, Literal)>::empty()));
        }
    }

    /// Discard the current scope; its bindings are dropped.
    pub fn pop_frame(&mut self)
        ensures
            final(self).view_s().frames == (if old(self).view_s().frames.len() == 0 {
                old(self).view_s().frames
            } else {
                old(self).view_s().frames.drop_last()
            }),
            final(self).view_s().heap == old(self).view_s().heap,
            final(self).view_s().stdout == old(self).view_s().stdout,
    {
        let ghost fs = self.frames.deep_view();
        if self.frames.len() > 0 {
            let _ = self.frames.pop();
            proof {
                assert(self.frames.deep_view() =~= fs.drop_last());
            }
        }
    }

    /// Store a payload in the heap and return its index.
    pub fn heap_alloc(&mut self, hv: HeapVal) -> (id: usize)
        ensures
            final(self).view_s().heap == old(self).view_s().heap.push(hv@),
            id == old(self).view_s().heap.len(),
            final(self).view_s().frames == old(self).view_s().frames,
            final(self).view_s().stdout == old(self).view_s().stdout,
    {
        let ghost hs = self.heap.deep_view();
        let id = self.heap.len();
        self.heap.push(hv);
        proof {
            assert(self.heap.deep_view() =~= hs.push(hv@));
        }
        id
    }

    /// A copy of the bytes behind a string value's heap index.
    pub fn buf_bytes(&self, h: usize) -> (r: Vec<u8>)
        ensures
            r@ == crate::literal::bytes_at(self.view_s().heap, h as int),
    {
        if h < self.heap.len() {
            proof {
                assert(self.heap.deep_view()[h as int] == self.heap@[h as int]@);
            }
            match &self.heap[h] {
                HeapVal::Buf(b) => crate::common::slice_to_vec(b.as_slice()),
                _ => Vec::new(),
            }
        } else {
            Vec::new()
        }
    }

    /// Append text to the captured output buffer.
    pub fn print(&mut self, text: &[u8])
        ensures
            final(self).view_s().stdout == old(self).view_s().stdout + text@,
            final(self).view_s().frames == old(self).view_s().frames,
            final(self).view_s().heap == old(self).view_s().heap,
    {
        crate::common::push_bytes(&mut self.stdout, text);
    }

    /// Append text and a line break to the captured output buffer.
    pub fn println(&mut self, text: &[u8])
        ensures
            final(self).view_s().stdout == old(self).view_s().stdout + text@
                + "\n".spec_bytes(),
            final(self).view_s().frames == old(self).view_s().frames,
            final(self).view_s().heap == old(self).view_s().heap,
    {
        crate::common::push_bytes(&mut self.stdout, text);
        crate::common::push_bytes(&mut self.stdout, "\n".as_bytes());
    }
}

use vstd::string::StringSliceAdditionalSpecFns;

/// The value bound to `k` in one frame; mirrors [`spec_frame_get`].
fn frame_get(fr: &Frame, k: usize) -> (r: Option<Literal>)
    ensures
        r == spec_frame_get(fr@, k),
{
    let mut i: usize = 0;
    while i < fr.binds.len()
        invariant
            i <= fr.binds@.len(),
            spec_find_bind(fr@, k, 0) == spec_find_bind(fr@, k, i as int),
        decreases fr.binds@.len() - i,
    {
        if fr.binds[i].0 == k {
            return Some(fr.binds[i].1);
        }
        i = i + 1;
    }
    None
}

/// Bind `k = v` in one frame; mirrors [`spec_frame_set`].
fn frame_set(fr: &mut Frame, k: usize, v: Literal)
    ensures
        final(fr)@ == spec_frame_set(old(fr)@, k, v),
{
    let mut i: usize = 0;
    while i < fr.binds.len()
        invariant
            i <= fr.binds@.len(),
            fr@ == old(fr)@,
            spec_find_bind(fr@, k, 0) == spec_find_bind(fr@, k, i as int),
        decreases fr.binds@.len() - i,
    {
        if fr.binds[i].0 == k {
            fr.binds[i] = (k, v);
            return;
        }
        i = i + 1;
    }
    fr.binds.push((k, v));
}


/// Bind `k` to `v` in an association list, overwriting an existing entry or
/// appending a new one; mirrors [`spec_frame_set`].
pub fn assoc_set(v: &mut Vec<(usize, Literal)>, k: usize, val: Literal)
    ensures
        final(v)@ == spec_frame_set(old(v)@, k, val),
{
    let mut i: usize = 0;
    while i < v.len()
        invariant
            i <= v@.len(),
            v@ == old(v)@,
            spec_find_bind(v@, k, 0) == spec_find_bind(v@, k, i as int),
        decreases v@.len() - i,
    {
        if v[i].0 == k {
            v[i] = (k, val);
            return;
        }
        i = i + 1;
    }
    v.push((k, val));
}

} // verus!
