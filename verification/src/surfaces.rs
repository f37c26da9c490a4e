use crate::config::OutputMode;
use vstd::prelude::*;

verus! {

/// The width and the height that a new layer surface asks for. Its true size
/// is set when the first frame is drawn.
pub const INITIAL_SIZE: u32 = 1;

/// The lowest version of the output interface that knows a release request.
pub const OUTPUT_RELEASE_VERSION: u32 = 3;

/// A monitor, as the registry announced it.
#[derive(Clone, Copy, Debug, PartialEq, Eq, Structural)]
pub struct Output {
    /// The name that the registry gave it.
    pub id: u32,
    /// The version of the output interface that it was bound with.
    pub version: u32,
}

/// One surface of the greeter: a compositor surface with its layer surface.
#[derive(Clone, Copy, Debug, PartialEq, Eq, Structural)]
pub struct RenderSurface {
    /// The monitor it is bound to, by the registry's name; none where the
    /// display server picks one.
    pub output: Option<u32>,
    /// Whether its first configure was acknowledged.
    pub configured: bool,
}

/// What has to be sent to the display server, or put on the command queue,
/// after a change of the surface set. Surfaces are named by their place in
/// the set at the time of the action.
#[derive(Clone, Copy, Debug, PartialEq, Eq, Structural)]
pub enum SurfaceAction {
    /// Destroy the layer surface at `index` of the set as it was.
    DestroyShellSurface { index: usize },
    /// Destroy the compositor surface at `index` of the set as it was.
    DestroySurface { index: usize },
    /// Create the surface at `index` of the new set: a compositor surface
    /// with a layer surface on the overlay layer, bound to `output`, with
    /// exclusive keyboard interactivity, asking for `width` by `height`, at
    /// buffer scale `scale`; then commit it.
    CreateSurface { index: usize, output: Option<u32>, width: u32, height: u32, scale: i32 },
    /// Release the output that the registry named `id`.
    ReleaseOutput { id: u32 },
    /// Acknowledge the configure with `serial` on the layer surface at
    /// `index`.
    AckConfigure { index: usize, serial: u32 },
    /// Put a forced redraw on the command queue.
    ForceDraw,
}

/// How many surfaces of `s` had their first configure acknowledged.
pub open spec fn count_configured(s: Seq<RenderSurface>) -> nat
    decreases s.len(),
{
    if s.len() == 0 {
        0
    } else {
        count_configured(s.drop_last()) + if s.last().configured {
            1nat
        } else {
            0nat
        }
    }
}

/// The outputs of `s` that the registry did not name `id`, in their order.
pub open spec fn without(s: Seq<Output>, id: u32) -> Seq<Output>
    decreases s.len(),
{
    if s.len() == 0 {
        Seq::empty()
    } else if s.last().id != id {
        without(s.drop_last(), id).push(s.last())
    } else {
        without(s.drop_last(), id)
    }
}

/// The first output of `s` that the registry named `id`.
pub open spec fn first_named(s: Seq<Output>, id: u32) -> Option<Output>
    decreases s.len(),
{
    if s.len() == 0 {
        None
    } else {
        match first_named(s.drop_last(), id) {
            Some(o) => Some(o),
            None => if s.last().id == id {
                Some(s.last())
            } else {
                None
            },
        }
    }
}

/// The actions that tear down a set of `n` surfaces: first every layer
/// surface, then every compositor surface.
pub open spec fn teardown(n: nat) -> Seq<SurfaceAction> {
    Seq::new(n, |i: int| SurfaceAction::DestroyShellSurface { index: i as usize }) + Seq::new(
        n,
        |i: int| SurfaceAction::DestroySurface { index: i as usize },
    )
}

/// The surface set and what it depends on, as plain values.
pub struct SurfaceState {
    pub compositor: bool,
    pub shell: bool,
    pub surfaces: Seq<RenderSurface>,
    pub configured: nat,
    pub outputs: Seq<Output>,
    pub output_mode: OutputMode,
    pub visible: bool,
    pub scale: u32,
}

impl SurfaceState {
    /// The counter counts the configured surfaces, and the scale is one that
    /// the display protocol can carry.
    pub open spec fn wf(self) -> bool {
        &&& self.configured == count_configured(self.surfaces)
        &&& 1 <= self.scale <= i32::MAX
    }

    /// What has to hold before any frame is drawn: every surface had its
    /// first configure acknowledged.
    pub open spec fn ready(self) -> bool {
        self.surfaces.len() == self.configured
    }

    /// The surfaces that the state calls for: none while invisible, one that
    /// is bound to no output in `Active` mode, one for each output in `All`
    /// mode.
    pub open spec fn planned(self) -> Seq<RenderSurface> {
        if !self.visible {
            Seq::empty()
        } else {
            match self.output_mode {
                OutputMode::Active => seq![RenderSurface { output: None, configured: false }],
                OutputMode::All => Seq::new(
                    self.outputs.len(),
                    |i: int| RenderSurface { output: Some(self.outputs[i].id), configured: false },
                ),
            }
        }
    }

    /// The actions that create the planned surfaces.
    pub open spec fn creation(self) -> Seq<SurfaceAction> {
        Seq::new(
            self.planned().len(),
            |i: int|
                SurfaceAction::CreateSurface {
                    index: i as usize,
                    output: self.planned()[i].output,
                    width: INITIAL_SIZE,
                    height: INITIAL_SIZE,
                    scale: self.scale as i32,
                },
        )
    }

    /// The state after the output set or the visibility changed, and what
    /// has to be done for it. Without a compositor and a layer shell nothing
    /// happens. With both, every surface is torn down and the counter goes
    /// back to zero; then the planned surfaces are created and, while
    /// visible, a forced redraw is asked for.
    pub open spec fn outputs_changed(self) -> (SurfaceState, Seq<SurfaceAction>) {
        if !self.shell || !self.compositor {
            (self, Seq::empty())
        } else {
            (
                SurfaceState { surfaces: self.planned(), configured: 0, ..self },
                teardown(self.surfaces.len()) + self.creation() + if self.visible {
                    seq![SurfaceAction::ForceDraw]
                } else {
                    Seq::empty()
                },
            )
        }
    }

    pub open spec fn add_output(self, output: Output) -> (SurfaceState, Seq<SurfaceAction>) {
        (SurfaceState { outputs: self.outputs.push(output), ..self }).outputs_changed()
    }

    /// Removing an output that is not known changes nothing. Else every
    /// output of that name leaves the set, the first of them is released if
    /// its version knows the request, and the surface set is rebuilt.
    pub open spec fn remove_output(self, id: u32) -> (SurfaceState, Seq<SurfaceAction>) {
        match first_named(self.outputs, id) {
            None => (self, Seq::empty()),
            Some(found) => {
                let (next, actions) = (SurfaceState {
                    outputs: without(self.outputs, id),
                    ..self
                }).outputs_changed();
                (
                    next,
                    if found.version >= OUTPUT_RELEASE_VERSION {
                        seq![SurfaceAction::ReleaseOutput { id }] + actions
                    } else {
                        actions
                    },
                )
            },
        }
    }

    pub open spec fn set_visible(self, visible: bool) -> (SurfaceState, Seq<SurfaceAction>) {
        (SurfaceState { visible, ..self }).outputs_changed()
    }

    /// The first configure of the surface at `index` marks it, counts it,
    /// is acknowledged and asks for a forced redraw. Any later one, and one
    /// for a surface that the set does not hold, does nothing.
    pub open spec fn configure(self, index: usize, serial: u32) -> (
        SurfaceState,
        Seq<SurfaceAction>,
    ) {
        if index < self.surfaces.len() && !self.surfaces[index as int].configured {
            (
                SurfaceState {
                    surfaces: self.surfaces.update(
                        index as int,
                        RenderSurface { configured: true, ..self.surfaces[index as int] },
                    ),
                    configured: self.configured + 1,
                    ..self
                },
                seq![SurfaceAction::AckConfigure { index, serial }, SurfaceAction::ForceDraw],
            )
        } else {
            (self, Seq::empty())
        }
    }
}

pub proof fn lemma_count_bounded(s: Seq<RenderSurface>)
    ensures
        count_configured(s) <= s.len(),
    decreases s.len(),
{
    if s.len() > 0 {
        lemma_count_bounded(s.drop_last());
    }
}

/// A set in which one surface is not configured counts fewer configured
/// surfaces than it holds, and counts one more once that surface is
/// configured.
pub proof fn lemma_count_update(s: Seq<RenderSurface>, i: int)
    requires
        0 <= i < s.len(),
        !s[i].configured,
    ensures
        count_configured(s) < s.len(),
        count_configured(s.update(i, RenderSurface { configured: true, ..s[i] }))
            == count_configured(s) + 1,
    decreases s.len(),
{
    let t = s.update(i, RenderSurface { configured: true, ..s[i] });
    if i == s.len() - 1 {
        lemma_count_bounded(s.drop_last());
        assert(t.drop_last() =~= s.drop_last());
    } else {
        lemma_count_update(s.drop_last(), i);
        assert(t.drop_last() =~= s.drop_last().update(
            i,
            RenderSurface { configured: true, ..s[i] },
        ));
    }
}

/// A set without a configured surface counts none.
pub proof fn lemma_count_none(s: Seq<RenderSurface>)
    requires
        forall|i: int| 0 <= i < s.len() ==> !(#[trigger] s[i]).configured,
    ensures
        count_configured(s) == 0,
    decreases s.len(),
{
    if s.len() > 0 {
        lemma_count_none(s.drop_last());
    }
}

/// Every change of the output set or of the visibility, while both globals
/// are bound, destroys every surface there was before it creates any, sets
/// the counter back to zero, and leaves one surface for each output in `All`
/// mode, exactly one in `Active` mode, and none while invisible. No frame
/// may be drawn after it until every new surface was configured.
pub proof fn lemma_rebuild(s: SurfaceState)
    requires
        s.shell,
        s.compositor,
        s.surfaces.len() <= usize::MAX,
    ensures
        ({
            let (next, actions) = s.outputs_changed();
            let n = s.surfaces.len() as int;
            &&& next.configured == 0
            &&& next.configured == count_configured(next.surfaces)
            &&& actions.len() >= 2 * n
            &&& forall|i: int|
                0 <= i < n ==> #[trigger] actions[i] == (SurfaceAction::DestroyShellSurface {
                    index: i as usize,
                })
            &&& forall|i: int|
                0 <= i < n ==> #[trigger] actions[n + i] == (SurfaceAction::DestroySurface {
                    index: i as usize,
                })
            &&& forall|i: int|
                2 * n <= i < actions.len() ==> #[trigger] actions[i] is CreateSurface || actions[i]
                    == SurfaceAction::ForceDraw
            &&& actions.len() == 2 * n + next.surfaces.len() + if s.visible {
                1int
            } else {
                0int
            }
            &&& !s.visible ==> next.surfaces.len() == 0
            &&& s.visible && s.output_mode == OutputMode::Active ==> next.surfaces.len() == 1
            &&& s.visible && s.output_mode == OutputMode::All ==> next.surfaces.len()
                == s.outputs.len()
            &&& next.ready() <==> next.surfaces.len() == 0
        }),
{
    let (next, actions) = s.outputs_changed();
    lemma_count_none(next.surfaces);
}

/// What was configured stays counted: a configure never lowers the counter,
/// raises it by one at most, and answers only the first configure of a
/// surface.
pub proof fn lemma_configure(s: SurfaceState, index: usize, serial: u32)
    requires
        s.wf(),
    ensures
        ({
            let (next, actions) = s.configure(index, serial);
            &&& next.wf()
            &&& next.surfaces.len() == s.surfaces.len()
            &&& next.configured <= next.surfaces.len()
            &&& next.configured == s.configured || next.configured == s.configured + 1
            &&& actions.len() > 0 <==> next.configured == s.configured + 1
            &&& s.configure(index, serial).0.configure(index, serial).1 == Seq::<
                SurfaceAction,
            >::empty()
        }),
{
    let (next, actions) = s.configure(index, serial);
    lemma_count_bounded(s.surfaces);
    if index < s.surfaces.len() && !s.surfaces[index as int].configured {
        lemma_count_update(s.surfaces, index as int);
    }
    lemma_count_bounded(next.surfaces);
}

/// The set of the greeter's surfaces, with the outputs and the globals that
/// it is built from. Every change of the outputs or of the visibility tears
/// the whole set down and builds it anew.
pub struct AppInner {
    compositor: bool,
    shell: bool,
    surfaces: Vec<RenderSurface>,
    configured_surfaces: usize,
    outputs: Vec<Output>,
    output_mode: OutputMode,
    visible: bool,
    scale: u32,
}

impl View for AppInner {
    type V = SurfaceState;

    closed spec fn view(&self) -> SurfaceState {
        SurfaceState {
            compositor: self.compositor,
            shell: self.shell,
            surfaces: self.surfaces@,
            configured: self.configured_surfaces as nat,
            outputs: self.outputs@,
            output_mode: self.output_mode,
            visible: self.visible,
            scale: self.scale,
        }
    }
}

impl AppInner {
    /// A visible state without globals, outputs or surfaces.
    pub fn new(output_mode: OutputMode, scale: u32) -> (inner: AppInner)
        requires
            1 <= scale <= i32::MAX,
        ensures
            inner@ == (SurfaceState {
                compositor: false,
                shell: false,
                surfaces: Seq::empty(),
                configured: 0,
                outputs: Seq::empty(),
                output_mode,
                visible: true,
                scale,
            }),
            inner@.wf(),
    {
        AppInner {
            compositor: false,
            shell: false,
            surfaces: Vec::new(),
            configured_surfaces: 0,
            outputs: Vec::new(),
            output_mode,
            visible: true,
            scale,
        }
    }

    /// What a new surface at `index` of the set starts as, and the action
    /// that creates it.
    pub fn add_shell_surface(scale: u32, index: usize, output: Option<u32>) -> (r: (
        RenderSurface,
        SurfaceAction,
    ))
        ensures
            r.0 == (RenderSurface { output, configured: false }),
            r.1 == (SurfaceAction::CreateSurface {
                index,
                output,
                width: INITIAL_SIZE,
                height: INITIAL_SIZE,
                scale: scale as i32,
            }),
    {
        (
            RenderSurface { output, configured: false },
            SurfaceAction::CreateSurface {
                index,
                output,
                width: INITIAL_SIZE,
                height: INITIAL_SIZE,
                scale: scale as i32,
            },
        )
    }

    /// Rebuilds the surface set after the outputs or the visibility changed.
    pub fn outputs_changed(&mut self) -> (actions: Vec<SurfaceAction>)
        requires
            old(self)@.wf(),
        ensures
            (final(self)@, actions@) == old(self)@.outputs_changed(),
            final(self)@.wf(),
    {
        if !self.shell || !self.compositor {
            return Vec::new();
        }
        let mut actions: Vec<SurfaceAction> = Vec::new();
        let n = self.surfaces.len();
        let mut i: usize = 0;
        while i < n
            invariant
                i <= n,
                actions@ == Seq::new(
                    i as nat,
                    |k: int| SurfaceAction::DestroyShellSurface { index: k as usize },
                ),
            decreases n - i,
        {
            actions.push(SurfaceAction::DestroyShellSurface { index: i });
            i = i + 1;
        }
        i = 0;
        while i < n
            invariant
                i <= n,
                actions@ == Seq::new(
                    n as nat,
                    |k: int| SurfaceAction::DestroyShellSurface { index: k as usize },
                ) + Seq::new(
                    i as nat,
                    |k: int| SurfaceAction::DestroySurface { index: k as usize },
                ),
            decreases n - i,
        {
            actions.push(SurfaceAction::DestroySurface { index: i });
            i = i + 1;
        }
        self.configured_surfaces = 0;
        let ghost plan = old(self)@.planned();
        let mut surfaces: Vec<RenderSurface> = Vec::new();
        if self.visible {
            match self.output_mode {
                OutputMode::Active => {
                    let (surface, action) = AppInner::add_shell_surface(self.scale, 0, None);
                    surfaces.push(surface);
                    actions.push(action);
                    assert(surfaces@ =~= plan);
                },
                OutputMode::All => {
                    let count = self.outputs.len();
                    let mut k: usize = 0;
                    while k < count
                        invariant
                            k <= count,
                            count == self.outputs@.len(),
                            self.outputs@ == old(self)@.outputs,
                            self.scale == old(self)@.scale,
                            old(self)@.visible,
                            old(self)@.output_mode == OutputMode::All,
                            plan == old(self)@.planned(),
                            surfaces@ == plan.take(k as int),
                            actions@ == teardown(n as nat) + old(self)@.creation().take(k as int),
                        decreases count - k,
                    {
                        let (surface, action) = AppInner::add_shell_surface(
                            self.scale,
                            k,
                            Some(self.outputs[k].id),
                        );
                        surfaces.push(surface);
                        actions.push(action);
                        k = k + 1;
                        assert(surfaces@ =~= plan.take(k as int));
                        assert(actions@ =~= teardown(n as nat) + old(self)@.creation().take(
                            k as int,
                        ));
                    }
                    assert(surfaces@ =~= plan);
                },
            }
            assert(actions@ =~= teardown(n as nat) + old(self)@.creation());
            actions.push(SurfaceAction::ForceDraw);
        } else {
            assert(old(self)@.creation() =~= Seq::empty());
            assert(actions@ =~= teardown(n as nat) + old(self)@.creation() + Seq::empty());
        }
        self.surfaces = surfaces;
        proof {
            lemma_count_none(plan);
        }
        actions
    }

    /// Takes a new output into the set and rebuilds the surfaces.
    pub fn add_output(&mut self, id: u32, version: u32) -> (actions: Vec<SurfaceAction>)
        requires
            old(self)@.wf(),
        ensures
            (final(self)@, actions@) == old(self)@.add_output(Output { id, version }),
            final(self)@.wf(),
    {
        self.outputs.push(Output { id, version });
        self.outputs_changed()
    }

    /// Takes the outputs that the registry named `id` out of the set and
    /// rebuilds the surfaces, if there was such an output.
    pub fn remove_output(&mut self, id: u32) -> (actions: Vec<SurfaceAction>)
        requires
            old(self)@.wf(),
        ensures
            (final(self)@, actions@) == old(self)@.remove_output(id),
            final(self)@.wf(),
    {
        let mut kept: Vec<Output> = Vec::new();
        let mut found: Option<Output> = None;
        let count = self.outputs.len();
        let mut i: usize = 0;
        while i < count
            invariant
                i <= count,
                count == self.outputs@.len(),
                *self == *old(self),
                kept@ == without(self.outputs@.take(i as int), id),
                found == first_named(self.outputs@.take(i as int), id),
            decreases count - i,
        {
            let output = self.outputs[i];
            proof {
                assert(self.outputs@.take(i + 1).drop_last() =~= self.outputs@.take(i as int));
            }
            if output.id != id {
                kept.push(output);
            } else if found.is_none() {
                found = Some(output);
            }
            i = i + 1;
        }
        proof {
            assert(self.outputs@.take(count as int) =~= self.outputs@);
        }
        match found {
            None => Vec::new(),
            Some(output) => {
                let mut actions: Vec<SurfaceAction> = Vec::new();
                if output.version >= OUTPUT_RELEASE_VERSION {
                    actions.push(SurfaceAction::ReleaseOutput { id });
                }
                self.outputs = kept;
                let mut rebuilt = self.outputs_changed();
                let ghost head = actions@;
                let ghost tail = rebuilt@;
                actions.append(&mut rebuilt);
                assert(actions@ =~= head + tail);
                assert(output.version < OUTPUT_RELEASE_VERSION ==> actions@ =~= tail);
                actions
            },
        }
    }

    /// Records whether the compositor global is bound.
    pub fn set_compositor(&mut self, compositor: bool)
        ensures
            final(self)@ == (SurfaceState { compositor, ..old(self)@ }),
    {
        self.compositor = compositor;
    }

    /// Records whether the layer-shell global is bound.
    pub fn set_shell(&mut self, shell: bool)
        ensures
            final(self)@ == (SurfaceState { shell, ..old(self)@ }),
    {
        self.shell = shell;
    }

    /// Shows or hides the greeter and rebuilds the surfaces.
    pub fn set_visible(&mut self, visible: bool) -> (actions: Vec<SurfaceAction>)
        requires
            old(self)@.wf(),
        ensures
            (final(self)@, actions@) == old(self)@.set_visible(visible),
            final(self)@.wf(),
    {
        self.visible = visible;
        self.outputs_changed()
    }

    /// Takes a configure of the layer surface at `index`.
    pub fn configure(&mut self, index: usize, serial: u32) -> (actions: Vec<SurfaceAction>)
        requires
            old(self)@.wf(),
        ensures
            (final(self)@, actions@) == old(self)@.configure(index, serial),
            final(self)@.wf(),
    {
        if index < self.surfaces.len() && !self.surfaces[index].configured {
            proof {
                lemma_count_update(self.surfaces@, index as int);
            }
            let surface = self.surfaces[index];
            self.surfaces.set(index, RenderSurface { output: surface.output, configured: true });
            self.configured_surfaces = self.configured_surfaces + 1;
            let mut actions: Vec<SurfaceAction> = Vec::new();
            actions.push(SurfaceAction::AckConfigure { index, serial });
            actions.push(SurfaceAction::ForceDraw);
            assert(actions@ =~= seq![
                SurfaceAction::AckConfigure { index, serial },
                SurfaceAction::ForceDraw,
            ]);
            actions
        } else {
            Vec::new()
        }
    }

    /// Whether every surface had its first configure acknowledged. No frame
    /// is drawn before.
    pub fn ready(&self) -> (r: bool)
        ensures
            r == self@.ready(),
    {
        self.surfaces.len() == self.configured_surfaces
    }

    pub fn surface_count(&self) -> (n: usize)
        ensures
            n == self@.surfaces.len(),
    {
        self.surfaces.len()
    }

    pub fn configured_surfaces(&self) -> (n: usize)
        ensures
            n == self@.configured,
    {
        self.configured_surfaces
    }

    pub fn output_count(&self) -> (n: usize)
        ensures
            n == self@.outputs.len(),
    {
        self.outputs.len()
    }

    pub fn scale(&self) -> (s: u32)
        ensures
            s == self@.scale,
    {
        self.scale
    }

    /// The surface at `index` of the set, if there is one.
    pub fn surface(&self, index: usize) -> (s: Option<RenderSurface>)
        ensures
            s == if index < self@.surfaces.len() {
                Some(self@.surfaces[index as int])
            } else {
                None
            },
    {
        if index < self.surfaces.len() {
            Some(self.surfaces[index])
        } else {
            None
        }
    }
}

} // verus!
