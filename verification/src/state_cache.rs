use vstd::prelude::*;

verus! {

/// Remembers which vertex array and which program are bound, so that
/// binding the same object again issues no GPU call. Objects are named
/// by their GPU handles.
pub struct GlStateCache {
    pub current_vao: Option<u32>,
    pub current_program: Option<u32>,
}

impl GlStateCache {
    /// Nothing is known to be bound.
    pub fn new() -> (c: Self)
        ensures
            c.current_vao is None,
            c.current_program is None,
    {
        GlStateCache { current_vao: None, current_program: None }
    }

    /// Records that `vao` is to be bound; returns whether the bind call
    /// must be issued (it is not when `vao` is already bound).
    pub fn bind_vao(&mut self, vao: u32) -> (issue: bool)
        ensures
            issue == bind_needed(old(self).current_vao, vao),
            final(self).current_vao == Some(vao),
            final(self).current_program == old(self).current_program,
    {
        if self.current_vao != Some(vao) {
            self.current_vao = Some(vao);
            true
        } else {
            false
        }
    }

    /// Records that `program` is to be used; returns whether the call
    /// must be issued (it is not when `program` is already in use).
    pub fn use_program(&mut self, program: u32) -> (issue: bool)
        ensures
            issue == bind_needed(old(self).current_program, program),
            final(self).current_program == Some(program),
            final(self).current_vao == old(self).current_vao,
    {
        if self.current_program != Some(program) {
            self.current_program = Some(program);
            true
        } else {
            false
        }
    }

    /// Forgets what is bound, after other code changed the GPU state.
    pub fn invalidate(&mut self)
        ensures
            final(self).current_vao is None,
            final(self).current_program is None,
    {
        self.current_vao = None;
        self.current_program = None;
    }
}

/// Whether binding `handle` must reach the GPU when `current` is bound.
pub open spec fn bind_needed(current: Option<u32>, handle: u32) -> bool {
    current != Some(handle)
}

/// Binding an object right after binding it issues no call, and after
/// `invalidate` (nothing known bound) every bind issues its call: the
/// state a bind leaves behind is the object just bound.
pub proof fn law_redundant_bind_skipped(handle: u32, other: u32)
    ensures
        !bind_needed(Some(handle), handle),
        bind_needed(None, handle),
        other != handle ==> bind_needed(Some(other), handle),
{
}

} // verus!
