use vstd::prelude::*;
use crate::material::{default_material, MaterialId, MaterialIds};

verus! {

/// The window events the application reacts to.
#[derive(Clone, Copy, PartialEq, Eq, Structural, Debug)]
pub enum WindowEventKind {
    CloseRequested,
    RedrawRequested,
    Resized { width: u32, height: u32 },
    Other,
}

/// What the event loop does in answer to a window event.
#[derive(Clone, Copy, PartialEq, Eq, Structural, Debug)]
pub enum WindowAction {
    Ignore,
    Exit,
    Render,
    Resize { width: u32, height: u32 },
}

/// Whether a window size can be rendered to: both sides non-zero (a
/// minimised window reports a zero size).
pub open spec fn renderable_size(width: u32, height: u32) -> bool {
    width > 0 && height > 0
}

/// Whether the renderer should follow a resize to `width` by `height`.
pub fn is_renderable_size(width: u32, height: u32) -> (b: bool)
    ensures
        b == renderable_size(width, height),
{
    width > 0 && height > 0
}

/// The answer to a window event: nothing before the renderer exists;
/// then close exits, redraw renders the queue, a resize to a renderable
/// size resizes and one to a zero size is ignored.
pub open spec fn window_action(running: bool, event: WindowEventKind) -> WindowAction {
    if !running {
        WindowAction::Ignore
    } else {
        match event {
            WindowEventKind::CloseRequested => WindowAction::Exit,
            WindowEventKind::RedrawRequested => WindowAction::Render,
            WindowEventKind::Resized { width, height } => if renderable_size(width, height) {
                WindowAction::Resize { width, height }
            } else {
                WindowAction::Ignore
            },
            WindowEventKind::Other => WindowAction::Ignore,
        }
    }
}

/// The abstract state of the application's bookkeeping.
pub struct AppModel<M, C> {
    /// The renderer exists (the application has resumed).
    pub running: bool,
    /// Draw commands queued for the current frame.
    pub queue: Seq<C>,
    /// Materials waiting for the renderer, in registration order.
    pub pending: Seq<(MaterialId, M)>,
    /// The id the next `add_material` hands out.
    pub next_id: usize,
}

impl<M, C> AppModel<M, C> {
    /// Registering a material: handed on at once when running, else
    /// queued. Returns the new state and what is handed on.
    pub open spec fn after_register(self, id: MaterialId, material: M) -> (AppModel<M, C>, Option<(MaterialId, M)>) {
        if self.running {
            (self, Some((id, material)))
        } else {
            (AppModel { pending: self.pending.push((id, material)), ..self }, None)
        }
    }

    /// Adding a material: it gets the next id and is registered.
    pub open spec fn after_add(self, material: M) -> (AppModel<M, C>, Option<(MaterialId, M)>) {
        AppModel { next_id: (self.next_id + 1) as usize, ..self }.after_register(MaterialId(self.next_id), material)
    }

    /// Resuming: the renderer exists and the waiting materials are
    /// handed on, in order.
    pub open spec fn after_resume(self) -> (AppModel<M, C>, Seq<(MaterialId, M)>) {
        (AppModel { running: true, pending: Seq::empty(), ..self }, self.pending)
    }

    /// Starting a frame: the queue is emptied once running.
    pub open spec fn after_begin_frame(self) -> (AppModel<M, C>, bool) {
        if self.running {
            (AppModel { queue: Seq::empty(), ..self }, true)
        } else {
            (self, false)
        }
    }
}

impl<M, C> AppModel<M, C> {
    /// Adding the materials `ms` one after another: the state afterwards,
    /// the ids they get, in order, and what is handed on at once.
    pub open spec fn after_adds(self, ms: Seq<M>) -> (AppModel<M, C>, Seq<MaterialId>, Seq<(MaterialId, M)>)
        decreases ms.len(),
    {
        if ms.len() == 0 {
            (self, Seq::empty(), Seq::empty())
        } else {
            let (m1, ids, handed) = self.after_adds(ms.drop_last());
            let (m2, forward) = m1.after_add(ms.last());
            (
                m2,
                ids.push(MaterialId(m1.next_id)),
                match forward {
                    Some(x) => handed.push(x),
                    None => handed,
                },
            )
        }
    }
}

/// Materials added one after another get the ids `n, n + 1, n + 2, ...`
/// in order, `n` being the next id before the first add (1 for a new
/// application), so all of them are distinct and none is the default
/// material's. Before the renderer exists they wait, in that order,
/// with those ids; afterwards each is handed on at once.
pub proof fn law_material_ids_run_in_order<M, C>(m: AppModel<M, C>, ms: Seq<M>)
    requires
        m.next_id + ms.len() <= usize::MAX,
    ensures
        ({
            let (m2, ids, handed) = m.after_adds(ms);
            let added = Seq::new(ms.len(), |i: int| (MaterialId((m.next_id + i) as usize), ms[i]));
            &&& ids.len() == ms.len()
            &&& forall|i: int| 0 <= i < ids.len() ==> #[trigger] ids[i] == MaterialId((m.next_id + i) as usize)
            &&& forall|i: int, j: int| 0 <= i < ids.len() && 0 <= j < ids.len() && i != j
                ==> #[trigger] ids[i] != #[trigger] ids[j]
            &&& m.next_id >= 1 ==> forall|i: int| 0 <= i < ids.len() ==> #[trigger] ids[i] != default_material()
            &&& m2.next_id == m.next_id + ms.len()
            &&& m2.running == m.running
            &&& m2.queue == m.queue
            &&& m.running ==> m2.pending == m.pending && handed == added
            &&& !m.running ==> m2.pending == m.pending + added && handed.len() == 0
        }),
    decreases ms.len(),
{
    if ms.len() > 0 {
        let n = ms.len() - 1;
        let front = ms.drop_last();
        law_material_ids_run_in_order::<M, C>(m, front);
        let (m1, ids1, handed1) = m.after_adds(front);
        let (m2, ids, handed) = m.after_adds(ms);
        let added1 = Seq::new(front.len(), |i: int| (MaterialId((m.next_id + i) as usize), front[i]));
        let added = Seq::new(ms.len(), |i: int| (MaterialId((m.next_id + i) as usize), ms[i]));
        assert(added =~= added1.push((MaterialId(m1.next_id), ms.last())));
        assert forall|i: int| 0 <= i < ids.len() implies #[trigger] ids[i] == MaterialId((m.next_id + i) as usize) by {
            if i < n {
                assert(ids[i] == ids1[i]);
            }
        }
        if m.running {
            assert(handed =~= handed1.push((MaterialId(m1.next_id), ms.last())));
        } else {
            assert(m2.pending =~= m.pending + added);
        }
    } else {
        let added = Seq::new(ms.len(), |i: int| (MaterialId((m.next_id + i) as usize), ms[i]));
        assert(added =~= Seq::<(MaterialId, M)>::empty());
        assert(m.pending + added =~= m.pending);
    }
}

/// Every material registered before the renderer exists reaches it at
/// resume, in registration order, and only once; every material
/// registered afterwards reaches it at once.
pub proof fn law_materials_delivered_once_in_order<M, C>(
    m: AppModel<M, C>,
    a: (MaterialId, M),
    b: (MaterialId, M),
    c: (MaterialId, M),
)
    requires
        !m.running,
    ensures
        ({
            let (m1, f1) = m.after_register(a.0, a.1);
            let (m2, f2) = m1.after_register(b.0, b.1);
            let (m3, delivered) = m2.after_resume();
            let (m4, f4) = m3.after_register(c.0, c.1);
            let (_, again) = m4.after_resume();
            &&& f1 is None
            &&& f2 is None
            &&& delivered == m.pending.push(a).push(b)
            &&& f4 == Some(c)
            &&& again == Seq::<(MaterialId, M)>::empty()
        }),
{
}

/// Material ids handed out one after another are distinct, larger each
/// time, and never the default material's.
pub proof fn law_added_materials_get_fresh_ids<M, C>(m: AppModel<M, C>, x: M, y: M)
    requires
        m.next_id >= 1,
        m.next_id < usize::MAX - 1,
    ensures
        ({
            let (m1, f1) = m.after_add(x);
            let (m2, f2) = m1.after_add(y);
            &&& m1.next_id == m.next_id + 1
            &&& m2.next_id == m.next_id + 2
            &&& MaterialId(m.next_id) != MaterialId(m1.next_id)
            &&& MaterialId(m.next_id).0 != 0
            &&& MaterialId(m1.next_id).0 != 0
        }),
{
}

/// Once the renderer exists, a close request exits, a redraw request
/// renders, a resize to a size with both sides non-zero resizes to
/// exactly that size, and a resize with a zero side (a minimised window)
/// or any other event is ignored. Only a close request exits and only a
/// redraw request renders.
pub proof fn law_running_window_events(e: WindowEventKind, width: u32, height: u32)
    ensures
        window_action(true, WindowEventKind::CloseRequested) == WindowAction::Exit,
        window_action(true, WindowEventKind::RedrawRequested) == WindowAction::Render,
        width > 0 && height > 0 ==> window_action(true, WindowEventKind::Resized { width, height })
            == (WindowAction::Resize { width, height }),
        width == 0 || height == 0 ==> window_action(true, WindowEventKind::Resized { width, height })
            == WindowAction::Ignore,
        window_action(true, WindowEventKind::Other) == WindowAction::Ignore,
        window_action(true, e) == WindowAction::Exit ==> e == WindowEventKind::CloseRequested,
        window_action(true, e) == WindowAction::Render ==> e == WindowEventKind::RedrawRequested,
        window_action(true, e) matches WindowAction::Resize { width: w, height: h } ==> e == (WindowEventKind::Resized {
            width: w,
            height: h,
        }) && w > 0 && h > 0,
{
}

/// Before the renderer exists no window event has an effect and frames
/// do not start; afterwards a frame starts with an empty queue.
pub proof fn law_nothing_before_resume<M, C>(m: AppModel<M, C>, e: WindowEventKind)
    ensures
        !m.running ==> window_action(m.running, e) == WindowAction::Ignore,
        !m.running ==> m.after_begin_frame() == (m, false),
        m.after_resume().0.after_begin_frame().0.queue == Seq::<C>::empty(),
        m.after_resume().0.after_begin_frame().1,
{
}

/// The application's bookkeeping around the renderer: the draw queue of
/// the current frame, the materials registered before the renderer
/// exists, and the material ids handed out. `M` is a material, `C` a
/// draw command.
pub struct AppCore<M, C> {
    running: bool,
    render_queue: Vec<C>,
    pending: Vec<(MaterialId, M)>,
    ids: MaterialIds,
}

impl<M, C> View for AppCore<M, C> {
    type V = AppModel<M, C>;

    closed spec fn view(&self) -> AppModel<M, C> {
        AppModel {
            running: self.running,
            queue: self.render_queue@,
            pending: self.pending@,
            next_id: self.ids.next_id(),
        }
    }
}

impl<M, C> AppCore<M, C> {
    /// No renderer yet, nothing queued, next material id 1.
    pub fn new() -> (a: Self)
        ensures
            a@ == (AppModel::<M, C> {
                running: false,
                queue: Seq::empty(),
                pending: Seq::empty(),
                next_id: 1,
            }),
    {
        let a = AppCore { running: false, render_queue: Vec::new(), pending: Vec::new(), ids: MaterialIds::new() };
        assert(a@.queue =~= Seq::<C>::empty());
        assert(a@.pending =~= Seq::<(MaterialId, M)>::empty());
        a
    }

    /// The id the next `add_material` hands out.
    pub fn next_material_id(&self) -> (n: usize)
        ensures
            n == self@.next_id,
            n >= 1,
    {
        self.ids.peek()
    }

    /// Registers a material under `id`. Once the renderer exists the
    /// material is handed back to be registered with it at once;
    /// before, it waits and `None` is returned.
    pub fn register_material(&mut self, id: MaterialId, material: M) -> (forward: Option<(MaterialId, M)>)
        ensures
            (final(self)@, forward) == old(self)@.after_register(id, material),
    {
        if self.running {
            Some((id, material))
        } else {
            self.pending.push((id, material));
            None
        }
    }

    /// Gives `material` the next free id and registers it.
    pub fn add_material(&mut self, material: M) -> (r: (MaterialId, Option<(MaterialId, M)>))
        requires
            old(self)@.next_id < usize::MAX,
        ensures
            r.0 == MaterialId(old(self)@.next_id),
            (final(self)@, r.1) == old(self)@.after_add(material),
    {
        let id = self.ids.allocate();
        let forward = self.register_material(id, material);
        (id, forward)
    }

    /// Queues a draw command for the current frame.
    pub fn draw(&mut self, command: C)
        ensures
            final(self)@ == (AppModel { queue: old(self)@.queue.push(command), ..old(self)@ }),
    {
        self.render_queue.push(command);
    }

    /// The draw commands of the current frame.
    pub fn render_queue(&self) -> (q: &Vec<C>)
        ensures
            q@ == self@.queue,
    {
        &self.render_queue
    }

    /// The renderer now exists: returns the waiting materials, in the
    /// order they were registered, to be registered with it.
    pub fn resume(&mut self) -> (waiting: Vec<(MaterialId, M)>)
        ensures
            (final(self)@, waiting@) == old(self)@.after_resume(),
    {
        self.running = true;
        let mut waiting: Vec<(MaterialId, M)> = Vec::new();
        std::mem::swap(&mut waiting, &mut self.pending);
        assert(self@.pending =~= Seq::<(MaterialId, M)>::empty());
        waiting
    }

    /// Starts a frame when the event loop is idle: once the renderer
    /// exists the previous frame's queue is emptied and `true` says to
    /// run the user's update and request a redraw; before, nothing
    /// happens.
    pub fn begin_frame(&mut self) -> (started: bool)
        ensures
            (final(self)@, started) == old(self)@.after_begin_frame(),
    {
        if self.running {
            self.render_queue.clear();
            assert(self@.queue =~= Seq::<C>::empty());
            true
        } else {
            false
        }
    }

    /// The answer to a window event.
    pub fn window_event(&self, event: WindowEventKind) -> (action: WindowAction)
        ensures
            action == window_action(self@.running, event),
    {
        if !self.running {
            return WindowAction::Ignore;
        }
        match event {
            WindowEventKind::CloseRequested => WindowAction::Exit,
            WindowEventKind::RedrawRequested => WindowAction::Render,
            WindowEventKind::Resized { width, height } => if is_renderable_size(width, height) {
                WindowAction::Resize { width, height }
            } else {
                WindowAction::Ignore
            },
            WindowEventKind::Other => WindowAction::Ignore,
        }
    }
}

} // verus!
