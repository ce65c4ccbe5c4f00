use vstd::prelude::*;
use crate::uniforms::{Uniform, UniformTable, uniform_name};

verus! {

/// The three buffers that hold the cube's data.
#[derive(Clone, Copy, Debug, PartialEq, Eq, Structural)]
pub enum BufferKind {
    Vertex,
    Color,
    Index,
}

/// The two programmable stages of the pipeline.
#[derive(Clone, Copy, Debug, PartialEq, Eq, Structural)]
pub enum ShaderStage {
    Vertex,
    Fragment,
}

/// One piece of outside work that bringing up the renderer asks for.
#[derive(Clone, Copy, Debug, PartialEq, Eq, Structural)]
pub enum Step {
    /// Find the canvas and obtain its rendering context.
    AcquireContext,
    /// Create the buffer and upload its data.
    CreateBuffer(BufferKind),
    /// Create an empty shader object for the stage.
    CreateShader(ShaderStage),
    /// Hand the stage its source, compile it and read the compile status.
    CompileShader(ShaderStage),
    /// Create the program object.
    CreateProgram,
    /// Attach both stages, link, and read the link status.
    LinkProgram,
    /// Look up the location of a uniform in the linked program.
    LocateUniform(Uniform),
}

/// What came of performing a step.
pub enum Outcome<H> {
    /// The step succeeded.
    Done,
    /// A uniform's location was found.
    Located(H),
    /// The object asked for was not there.
    Absent,
    /// Compiling or linking failed, with the log of the failure.
    Rejected(String),
}

/// Why bringing up the renderer was abandoned.
#[derive(Debug, PartialEq, Eq)]
pub enum SetupError {
    CanvasNotFound(String),
    BufferUnavailable(BufferKind),
    ShaderUnavailable(ShaderStage),
    ShaderCompile(ShaderStage, String),
    ProgramUnavailable,
    ProgramLink(String),
    UniformNotFound(Uniform),
}

/// What the caller does next.
#[derive(Debug, PartialEq, Eq)]
pub enum Next {
    Perform(Step),
    Ready,
    Abort(SetupError),
}

/// Where a setup run stands.
#[derive(Clone, Copy, Debug, PartialEq, Eq, Structural)]
pub enum Phase {
    Running,
    Ready,
    Failed,
}

/// Number of steps in a setup run.
pub const PLAN_LEN: usize = 13;

/// The step performed at each position of a setup run.
pub open spec fn plan_step(i: int) -> Step {
    if i == 0 {
        Step::AcquireContext
    } else if i == 1 {
        Step::CreateBuffer(BufferKind::Vertex)
    } else if i == 2 {
        Step::CreateBuffer(BufferKind::Color)
    } else if i == 3 {
        Step::CreateBuffer(BufferKind::Index)
    } else if i == 4 {
        Step::CreateShader(ShaderStage::Vertex)
    } else if i == 5 {
        Step::CompileShader(ShaderStage::Vertex)
    } else if i == 6 {
        Step::CreateShader(ShaderStage::Fragment)
    } else if i == 7 {
        Step::CompileShader(ShaderStage::Fragment)
    } else if i == 8 {
        Step::CreateProgram
    } else if i == 9 {
        Step::LinkProgram
    } else if i == 10 {
        Step::LocateUniform(Uniform::Model)
    } else if i == 11 {
        Step::LocateUniform(Uniform::View)
    } else {
        Step::LocateUniform(Uniform::Projection)
    }
}

/// The whole setup run, in order.
pub open spec fn plan() -> Seq<Step> {
    Seq::new(PLAN_LEN as nat, |i: int| plan_step(i))
}

/// The step at position `i` of a setup run.
pub fn step_at(i: usize) -> (r: Step)
    requires
        i < PLAN_LEN,
    ensures
        r == plan()[i as int],
{
    if i == 0 {
        Step::AcquireContext
    } else if i == 1 {
        Step::CreateBuffer(BufferKind::Vertex)
    } else if i == 2 {
        Step::CreateBuffer(BufferKind::Color)
    } else if i == 3 {
        Step::CreateBuffer(BufferKind::Index)
    } else if i == 4 {
        Step::CreateShader(ShaderStage::Vertex)
    } else if i == 5 {
        Step::CompileShader(ShaderStage::Vertex)
    } else if i == 6 {
        Step::CreateShader(ShaderStage::Fragment)
    } else if i == 7 {
        Step::CompileShader(ShaderStage::Fragment)
    } else if i == 8 {
        Step::CreateProgram
    } else if i == 9 {
        Step::LinkProgram
    } else if i == 10 {
        Step::LocateUniform(Uniform::Model)
    } else if i == 11 {
        Step::LocateUniform(Uniform::View)
    } else {
        Step::LocateUniform(Uniform::Projection)
    }
}

/// A step succeeds when a uniform's location is found, or when any other
/// step reports that it is done.
pub open spec fn step_succeeds<H>(s: Step, o: Outcome<H>) -> bool {
    match s {
        Step::LocateUniform(_) => o is Located,
        _ => o is Done,
    }
}

/// The log carried by an outcome, empty where there is none.
pub open spec fn outcome_log<H>(o: Outcome<H>) -> Seq<char> {
    match o {
        Outcome::Rejected(log) => log@,
        _ => Seq::empty(),
    }
}

/// The error that a failed step gives, with the failure's log, for a canvas
/// named `canvas_id`.
pub open spec fn failure_of(e: SetupError, s: Step, log: Seq<char>, canvas_id: Seq<char>) -> bool {
    match s {
        Step::AcquireContext => e matches SetupError::CanvasNotFound(id) && id@ == canvas_id,
        Step::CreateBuffer(k) => e == SetupError::BufferUnavailable(k),
        Step::CreateShader(st) => e == SetupError::ShaderUnavailable(st),
        Step::CompileShader(st) => e matches SetupError::ShaderCompile(st2, l) && st2 == st
            && l@ == log,
        Step::CreateProgram => e == SetupError::ProgramUnavailable,
        Step::LinkProgram => e matches SetupError::ProgramLink(l) && l@ == log,
        Step::LocateUniform(u) => e == SetupError::UniformNotFound(u),
    }
}

/// The uniform names that the first `n` steps of a run look up.
pub open spec fn located_names(n: int) -> Set<Seq<char>> {
    Set::new(|k: Seq<char>| exists|i: int| 0 <= i < n && #[trigger] plan_step(i) is LocateUniform
        && k == uniform_name(plan_step(i)->LocateUniform_0))
}

/// Bringing up the renderer: which step comes next, and which uniform
/// handles have been found so far.
pub struct Setup<H> {
    canvas_id: String,
    position: usize,
    phase: Phase,
    uniforms: UniformTable<H>,
}

impl<H> Setup<H> {
    /// The id of the canvas that the run brings up.
    pub closed spec fn canvas_id(&self) -> Seq<char> {
        self.canvas_id@
    }

    /// Position in the plan of the step being performed (or of the one
    /// that failed); the plan's length once ready.
    pub closed spec fn position(&self) -> nat {
        self.position as nat
    }

    /// Whether the run goes on, is ready or was abandoned.
    pub closed spec fn phase(&self) -> Phase {
        self.phase
    }

    /// The uniform handles found so far.
    pub closed spec fn handles(&self) -> Map<Seq<char>, H> {
        self.uniforms@
    }

    /// The position stays within the plan, and the handles held are those
    /// of the uniforms looked up before it.
    pub closed spec fn wf(&self) -> bool {
        &&& self.phase == Phase::Running ==> self.position < PLAN_LEN
        &&& self.phase == Phase::Failed ==> self.position < PLAN_LEN
        &&& self.phase == Phase::Ready ==> self.position == PLAN_LEN
        &&& self.uniforms.wf()
        &&& self.uniforms@.dom() == located_names(self.position as int)
    }

    /// The names held are those that the steps performed so far looked up.
    pub proof fn lemma_handles_dom(&self)
        requires
            self.wf(),
        ensures
            self.handles().dom() == located_names(self.position() as int),
            self.phase() == Phase::Ready ==> self.position() == PLAN_LEN,
    {
    }

    /// Starts a run for the canvas named `canvas_id`; the first step is returned.
    pub fn start(canvas_id: String) -> (r: (Self, Step))
        ensures
            r.0.wf(),
            r.0.canvas_id() == canvas_id@,
            r.0.phase() == Phase::Running,
            r.0.position() == 0,
            r.0.handles() == Map::<Seq<char>, H>::empty(),
            r.1 == plan()[0],
    {
        let s = Setup { canvas_id, position: 0, phase: Phase::Running, uniforms: UniformTable::new() };
        assert(s.uniforms@.dom() =~= located_names(0));
        (s, step_at(0))
    }

    pub fn is_running(&self) -> (r: bool)
        ensures
            r == (self.phase() == Phase::Running),
    {
        self.phase == Phase::Running
    }

    /// The uniform handles found so far.
    pub fn uniforms(&self) -> (r: &UniformTable<H>)
        requires
            self.wf(),
        ensures
            r.wf(),
            r@ == self.handles(),
    {
        &self.uniforms
    }

    /// Ends the run, handing over the uniform handles found.
    pub fn into_uniforms(self) -> (r: UniformTable<H>)
        requires
            self.wf(),
        ensures
            r.wf(),
            r@ == self.handles(),
    {
        self.uniforms
    }

    /// Takes in what came of the current step and decides what follows: the
    /// next step of the plan, readiness after the last one, or abandoning
    /// the run on the first failure.
    pub fn advance(&mut self, outcome: Outcome<H>) -> (r: Next)
        requires
            old(self).wf(),
            old(self).phase() == Phase::Running,
        ensures
            final(self).wf(),
            final(self).canvas_id() == old(self).canvas_id(),
            step_succeeds(plan()[old(self).position() as int], outcome) ==> {
                &&& final(self).position() == old(self).position() + 1
                &&& final(self).handles() == match outcome {
                    Outcome::Located(h) => old(self).handles().insert(
                        uniform_name(plan()[old(self).position() as int]->LocateUniform_0),
                        h,
                    ),
                    _ => old(self).handles(),
                }
                &&& old(self).position() + 1 < PLAN_LEN ==> final(self).phase() == Phase::Running
                    && r == Next::Perform(plan()[old(self).position() + 1int])
                &&& old(self).position() + 1 == PLAN_LEN ==> final(self).phase() == Phase::Ready
                    && r == Next::Ready
            },
            !step_succeeds(plan()[old(self).position() as int], outcome) ==> {
                &&& final(self).position() == old(self).position()
                &&& final(self).handles() == old(self).handles()
                &&& final(self).phase() == Phase::Failed
                &&& r matches Next::Abort(e) && failure_of(
                    e,
                    plan()[old(self).position() as int],
                    outcome_log(outcome),
                    old(self).canvas_id(),
                )
            },
    {
        let step = step_at(self.position);
        let ghost pos = self.position as int;
        let failure = match step {
            Step::LocateUniform(u) => match outcome {
                Outcome::Located(h) => {
                    self.uniforms.insert(String::from_str(u.name()), h);
                    None
                },
                _ => Some(SetupError::UniformNotFound(u)),
            },
            _ => match outcome {
                Outcome::Done => None,
                Outcome::Rejected(log) => Some(failure_with_log(step, log, &self.canvas_id)),
                _ => Some(failure_with_log(step, String::new(), &self.canvas_id)),
            },
        };
        match failure {
            Some(e) => {
                self.phase = Phase::Failed;
                Next::Abort(e)
            },
            None => {
                self.position = self.position + 1;
                proof {
                    lemma_located_names_step(pos);
                    assert(self.uniforms@.dom() =~= located_names(pos + 1));
                }
                if self.position < PLAN_LEN {
                    Next::Perform(step_at(self.position))
                } else {
                    self.phase = Phase::Ready;
                    Next::Ready
                }
            },
        }
    }
}

/// How the uniform names looked up grow by one step of the plan.
proof fn lemma_located_names_step(n: int)
    requires
        0 <= n < PLAN_LEN,
    ensures
        plan_step(n) matches Step::LocateUniform(u) ==> located_names(n + 1) == located_names(
            n,
        ).insert(uniform_name(u)),
        !(plan_step(n) is LocateUniform) ==> located_names(n + 1) == located_names(n),
{
    if let Step::LocateUniform(u) = plan_step(n) {
        assert(located_names(n + 1) =~= located_names(n).insert(uniform_name(u))) by {
            assert forall|k: Seq<char>| located_names(n + 1).contains(k) implies located_names(
                n,
            ).insert(uniform_name(u)).contains(k) by {
                let i = choose|i: int| 0 <= i < n + 1 && #[trigger] plan_step(i) is LocateUniform
                    && k == uniform_name(plan_step(i)->LocateUniform_0);
                if i == n {
                } else {
                    assert(located_names(n).contains(k));
                }
            }
            assert(plan_step(n) == Step::LocateUniform(u));
        }
    } else {
        assert(located_names(n + 1) =~= located_names(n)) by {
            assert forall|k: Seq<char>| located_names(n + 1).contains(k) implies located_names(
                n,
            ).contains(k) by {
                let i = choose|i: int| 0 <= i < n + 1 && #[trigger] plan_step(i) is LocateUniform
                    && k == uniform_name(plan_step(i)->LocateUniform_0);
                assert(i != n);
            }
        }
    }
}

/// The error for a step other than a uniform lookup that did not succeed.
fn failure_with_log(step: Step, log: String, canvas_id: &String) -> (r: SetupError)
    requires
        !(step is LocateUniform),
    ensures
        failure_of(r, step, log@, canvas_id@),
{
    match step {
        Step::AcquireContext => SetupError::CanvasNotFound(canvas_id.clone()),
        Step::CreateBuffer(k) => SetupError::BufferUnavailable(k),
        Step::CreateShader(st) => SetupError::ShaderUnavailable(st),
        Step::CompileShader(st) => SetupError::ShaderCompile(st, log),
        Step::CreateProgram => SetupError::ProgramUnavailable,
        Step::LinkProgram => SetupError::ProgramLink(log),
        Step::LocateUniform(u) => SetupError::UniformNotFound(u),
    }
}

/// The text that reports an error to the page.
pub open spec fn error_message(e: SetupError) -> Seq<char> {
    match e {
        SetupError::CanvasNotFound(id) => "No canvas found with id: "@ + id@,
        SetupError::BufferUnavailable(BufferKind::Vertex) => "Error binding data to vertex buffer."@,
        SetupError::BufferUnavailable(BufferKind::Color) => "Error binding data to color buffer."@,
        SetupError::BufferUnavailable(BufferKind::Index) => "Error binding data to index buffer."@,
        SetupError::ShaderUnavailable(_) => "Failed to create vertex shader."@,
        SetupError::ShaderCompile(_, log) => "An error occurred compiling shader: "@ + log@,
        SetupError::ProgramUnavailable => "Failed to initialize shader program"@,
        SetupError::ProgramLink(log) => "An error occurred compiling shader program: "@ + log@,
        SetupError::UniformNotFound(u) => "Failed to get uniform, "@ + uniform_name(u)
            + ", location."@,
    }
}

impl SetupError {
    pub fn message(&self) -> (r: String)
        ensures
            r@ == error_message(*self),
    {
        match self {
            SetupError::CanvasNotFound(id) => String::from_str("No canvas found with id: ").concat(
                id.as_str(),
            ),
            SetupError::BufferUnavailable(BufferKind::Vertex) => String::from_str(
                "Error binding data to vertex buffer.",
            ),
            SetupError::BufferUnavailable(BufferKind::Color) => String::from_str(
                "Error binding data to color buffer.",
            ),
            SetupError::BufferUnavailable(BufferKind::Index) => String::from_str(
                "Error binding data to index buffer.",
            ),
            SetupError::ShaderUnavailable(_) => String::from_str(
                "Failed to create vertex shader.",
            ),
            SetupError::ShaderCompile(_, log) => String::from_str(
                "An error occurred compiling shader: ",
            ).concat(log.as_str()),
            SetupError::ProgramUnavailable => String::from_str(
                "Failed to initialize shader program",
            ),
            SetupError::ProgramLink(log) => String::from_str(
                "An error occurred compiling shader program: ",
            ).concat(log.as_str()),
            SetupError::UniformNotFound(u) => String::from_str("Failed to get uniform, ").concat(
                u.name(),
            ).concat(", location."),
        }
    }
}

/// Once a run is ready, a handle is held for every transform uniform.
pub proof fn lemma_ready_holds_every_uniform<H>(s: &Setup<H>, u: Uniform)
    requires
        s.wf(),
        s.phase() == Phase::Ready,
    ensures
        s.handles().contains_key(uniform_name(u)),
{
    let i: int = match u {
        Uniform::Model => 10,
        Uniform::View => 11,
        Uniform::Projection => 12,
    };
    assert(plan_step(i) is LocateUniform && uniform_name(u) == uniform_name(
        plan_step(i)->LocateUniform_0,
    ));
    assert(located_names(PLAN_LEN as int).contains(uniform_name(u)));
    s.lemma_handles_dom();
}

} // verus!
