//! Assembly of a linked program from the sources of its stages.

use vstd::prelude::*;
use vstd::string::*;
use crate::error::Error;
use crate::shader::{overlay, stage_order, text_of, ShaderCode, ShaderType, STAGE_COUNT};

verus! {

/// The stages among the first `n` that have a source, in compile order,
/// each with its source.
pub open spec fn supplied_among(code: Seq<Option<Seq<char>>>, n: int) -> Seq<
    (ShaderType, Seq<char>),
>
    decreases n,
{
    if n <= 0 {
        Seq::empty()
    } else if code[n - 1] is Some {
        supplied_among(code, n - 1).push((stage_order()[n - 1], code[n - 1]->0))
    } else {
        supplied_among(code, n - 1)
    }
}

/// The stages that have a source, in compile order, each with its source.
pub open spec fn supplied(code: Seq<Option<Seq<char>>>) -> Seq<(ShaderType, Seq<char>)> {
    supplied_among(code, STAGE_COUNT as int)
}

/// The message of a failed compilation: the stage, then the diagnostic of
/// the compiler, verbatim.
pub open spec fn compile_error_text(stage: ShaderType, log: Seq<char>) -> Seq<char> {
    "error in "@ + stage.name() + " shader : "@ + log
}

/// Collects shader sources and starts the assembly of a program.
#[derive(Debug, Clone)]
pub struct ProgramBuilder {
    code: ShaderCode,
}

impl View for ProgramBuilder {
    type V = Seq<Option<Seq<char>>>;

    /// The source of each stage, in [`stage_order`].
    closed spec fn view(&self) -> Seq<Option<Seq<char>>> {
        self.code@
    }
}

impl ProgramBuilder {
    /// There is one entry for each stage.
    pub proof fn lemma_one_entry_per_stage(&self)
        ensures
            self@.len() == STAGE_COUNT,
    {
        self.code.lemma_one_entry_per_stage();
    }

    /// A builder without any source.
    pub fn new() -> (builder: ProgramBuilder)
        ensures
            builder@ == Seq::new(STAGE_COUNT as nat, |i: int| None::<Seq<char>>),
    {
        ProgramBuilder { code: ShaderCode::new() }
    }

    /// Sets the source of the vertex stage.
    pub fn vertex_shader_code(&mut self, code: &str) -> (builder: &mut ProgramBuilder)
        ensures
            builder@ == old(self)@.update(ShaderType::Vertex.position(), Some(code@)),
            *final(self) == *final(builder),
    {
        self.code.set(ShaderType::Vertex, Some(String::from_str(code)));
        self
    }

    /// Sets the source of the fragment stage.
    pub fn fragment_shader_code(&mut self, code: &str) -> (builder: &mut ProgramBuilder)
        ensures
            builder@ == old(self)@.update(ShaderType::Fragment.position(), Some(code@)),
            *final(self) == *final(builder),
    {
        self.code.set(ShaderType::Fragment, Some(String::from_str(code)));
        self
    }

    /// Sets the source of the geometry stage.
    pub fn geometry_shader_code(&mut self, code: &str) -> (builder: &mut ProgramBuilder)
        ensures
            builder@ == old(self)@.update(ShaderType::Geometry.position(), Some(code@)),
            *final(self) == *final(builder),
    {
        self.code.set(ShaderType::Geometry, Some(String::from_str(code)));
        self
    }

    /// Sets the source of the tessellation control stage.
    pub fn tess_control_shader_code(&mut self, code: &str) -> (builder: &mut ProgramBuilder)
        ensures
            builder@ == old(self)@.update(ShaderType::TessControl.position(), Some(code@)),
            *final(self) == *final(builder),
    {
        self.code.set(ShaderType::TessControl, Some(String::from_str(code)));
        self
    }

    /// Sets the source of the tessellation evaluation stage.
    pub fn tess_eval_shader_code(&mut self, code: &str) -> (builder: &mut ProgramBuilder)
        ensures
            builder@ == old(self)@.update(ShaderType::TessEval.position(), Some(code@)),
            *final(self) == *final(builder),
    {
        self.code.set(ShaderType::TessEval, Some(String::from_str(code)));
        self
    }

    /// Sets the source of the compute stage.
    pub fn compute_shader_code(&mut self, code: &str) -> (builder: &mut ProgramBuilder)
        ensures
            builder@ == old(self)@.update(ShaderType::Compute.position(), Some(code@)),
            *final(self) == *final(builder),
    {
        self.code.set(ShaderType::Compute, Some(String::from_str(code)));
        self
    }

    /// Takes over every source that `code` holds; stages for which `code`
    /// has none keep what they had.
    pub fn code(&mut self, code: &ShaderCode) -> (builder: &mut ProgramBuilder)
        ensures
            builder@ == overlay(old(self)@, code@),
            *final(self) == *final(builder),
    {
        let all: [ShaderType; 6] = ShaderType::each();
        let mut i: usize = 0;
        proof {
            self.lemma_one_entry_per_stage();
            code.lemma_one_entry_per_stage();
        }
        while i < 6
            invariant
                i <= 6,
                all@ == stage_order(),
                self@.len() == STAGE_COUNT,
                code@.len() == STAGE_COUNT,
                forall|j: int|
                    0 <= j < STAGE_COUNT ==> #[trigger] self@[j] == if j < i && code@[j] is Some {
                        code@[j]
                    } else {
                        old(self)@[j]
                    },
            decreases 6 - i,
        {
            let ty: ShaderType = all[i];
            match code.get(ty) {
                Some(source) => {
                    self.code.set(ty, Some(source.clone()));
                },
                None => {},
            }
            i = i + 1;
        }
        assert(self@ =~= overlay(old(self)@, code@));
        self
    }
}

/// A stage and the source it is compiled from.
#[derive(Debug, Clone, PartialEq, Eq)]
pub struct StageSource {
    pub stage: ShaderType,
    pub source: String,
}

/// The operation on the GPU that an assembly is waiting for.
#[derive(Debug, Clone, PartialEq, Eq)]
pub enum BuildRequest {
    /// Create a shader object of stage `stage`, give it `source` and
    /// compile it.
    Compile { stage: ShaderType, source: String },
    /// Create a program object, attach `shaders` in this order and link it.
    Link { shaders: Vec<u32> },
}

/// How an operation on the GPU went.
#[derive(Debug, Clone, PartialEq, Eq)]
pub struct Outcome {
    /// The shader or program object that the operation created.
    pub object: u32,
    /// `None` if the operation succeeded, else its diagnostic.
    pub log: Option<String>,
}

/// The end of an assembly.
#[derive(Debug, PartialEq, Eq)]
pub struct BuildResult {
    /// The shader objects to delete: every one that was created.
    pub delete_shaders: Vec<u32>,
    /// The program object to delete, if one was created and did not link.
    pub delete_program: Option<u32>,
    /// The linked program, or why there is none.
    pub program: Result<u32, Error>,
}

/// An assembly after one more outcome.
#[derive(Debug)]
pub enum BuildStep {
    /// The assembly goes on with its next request.
    Pending(ProgramBuild),
    /// The assembly is over.
    Finished(BuildResult),
}

/// The state of an assembly: the stages in compile order, each with its
/// source, and the shader objects compiled so far.
pub struct BuildState {
    pub stages: Seq<(ShaderType, Seq<char>)>,
    pub shaders: Seq<u32>,
}

/// What the end of an assembly says.
pub struct Ending {
    /// The shader objects to delete.
    pub delete_shaders: Seq<u32>,
    /// The program object to delete, if there is one.
    pub delete_program: Option<u32>,
    /// The linked program, or the message of the error.
    pub program: Result<u32, Seq<char>>,
}

/// An assembly after one or more outcomes.
pub enum Progress {
    Pending(BuildState),
    Finished(Ending),
}

impl BuildState {
    /// A stage is still waiting to be compiled.
    pub open spec fn compiling(self) -> bool {
        self.shaders.len() < self.stages.len()
    }

    /// The stage that is compiled next.
    pub open spec fn current(self) -> (ShaderType, Seq<char>) {
        self.stages[self.shaders.len() as int]
    }
}

/// An assembly after it learns how the operation it asked for went; the
/// operation created `object` and failed with `log`, if with any.
///
/// A compiled stage is recorded and the assembly goes on. A stage that
/// fails to compile ends it with an error that names the stage and
/// repeats the diagnostic. A program that links ends it with the program;
/// one that does not ends it with the diagnostic as the error, and the
/// program object is deleted. However it ends, every shader object created
/// on the way is deleted, the failed one included.
pub open spec fn progress(state: BuildState, object: u32, log: Option<Seq<char>>) -> Progress {
    if state.compiling() {
        match log {
            None => Progress::Pending(BuildState { shaders: state.shaders.push(object), ..state }),
            Some(diagnostic) => Progress::Finished(
                Ending {
                    delete_shaders: state.shaders.push(object),
                    delete_program: None,
                    program: Err(compile_error_text(state.current().0, diagnostic)),
                },
            ),
        }
    } else {
        match log {
            None => Progress::Finished(
                Ending { delete_shaders: state.shaders, delete_program: None, program: Ok(object) },
            ),
            Some(diagnostic) => Progress::Finished(
                Ending {
                    delete_shaders: state.shaders,
                    delete_program: Some(object),
                    program: Err(diagnostic),
                },
            ),
        }
    }
}

/// An assembly after the operations it asked for went as `outcomes` say,
/// one after the other. Once it is over, it asks for nothing more, and
/// what is left of `outcomes` never happens.
pub open spec fn assembly(state: BuildState, outcomes: Seq<(u32, Option<Seq<char>>)>) -> Progress
    decreases outcomes.len(),
{
    if outcomes.len() == 0 {
        Progress::Pending(state)
    } else {
        match progress(state, outcomes.first().0, outcomes.first().1) {
            Progress::Pending(next) => assembly(next, outcomes.drop_first()),
            Progress::Finished(end) => Progress::Finished(end),
        }
    }
}

/// A program in the making: the stages to compile and the shader objects
/// compiled so far.
#[derive(Debug)]
pub struct ProgramBuild {
    stages: Vec<StageSource>,
    shaders: Vec<u32>,
}

impl View for ProgramBuild {
    type V = BuildState;

    closed spec fn view(&self) -> BuildState {
        BuildState {
            stages: Seq::new(
                self.stages@.len(),
                |i: int| (self.stages@[i].stage, self.stages@[i].source@),
            ),
            shaders: self.shaders@,
        }
    }
}

impl View for BuildResult {
    type V = Ending;

    open spec fn view(&self) -> Ending {
        Ending {
            delete_shaders: self.delete_shaders@,
            delete_program: self.delete_program,
            program: match self.program {
                Ok(program) => Ok(program),
                Err(e) => Err(e@),
            },
        }
    }
}

impl View for BuildStep {
    type V = Progress;

    open spec fn view(&self) -> Progress {
        match self {
            BuildStep::Pending(build) => Progress::Pending(build@),
            BuildStep::Finished(end) => Progress::Finished(end@),
        }
    }
}

impl ProgramBuild {

    /// What the caller has to do next: compile the first stage that has no
    /// shader object yet, or, when every stage has one, link them.
    pub fn request(&self) -> (request: BuildRequest)
        ensures
            self@.compiling() ==> ({
                &&& request matches BuildRequest::Compile { stage, source }
                &&& stage == self@.current().0
                &&& source@ == self@.current().1
            }),
            !self@.compiling() ==> ({
                &&& request matches BuildRequest::Link { shaders }
                &&& shaders@ == self@.shaders
            }),
    {
        let done: usize = self.shaders.len();
        if done < self.stages.len() {
            BuildRequest::Compile {
                stage: self.stages[done].stage,
                source: self.stages[done].source.clone(),
            }
        } else {
            BuildRequest::Link { shaders: copy_handles(&self.shaders) }
        }
    }

    /// Takes note of how the requested operation went, and goes on or ends
    /// as [`progress`] says.
    pub fn advance(self, outcome: Outcome) -> (step: BuildStep)
        ensures
            step@ == progress(self@, outcome.object, text_of(outcome.log)),
    {
        let ProgramBuild { stages, mut shaders } = self;
        let done: usize = shaders.len();
        if done < stages.len() {
            shaders.push(outcome.object);
            match outcome.log {
                None => BuildStep::Pending(ProgramBuild { stages, shaders }),
                Some(log) => {
                    let message = String::from_str("error in ").concat(
                        stages[done].stage.short_name(),
                    ).concat(" shader : ").concat(log.as_str());
                    BuildStep::Finished(
                        BuildResult {
                            delete_shaders: shaders,
                            delete_program: None,
                            program: Err(Error::new(message.as_str())),
                        },
                    )
                },
            }
        } else {
            match outcome.log {
                None => BuildStep::Finished(
                    BuildResult {
                        delete_shaders: shaders,
                        delete_program: None,
                        program: Ok(outcome.object),
                    },
                ),
                Some(log) => BuildStep::Finished(
                    BuildResult {
                        delete_shaders: shaders,
                        delete_program: Some(outcome.object),
                        program: Err(Error::new(log.as_str())),
                    },
                ),
            }
        }
    }
}

/// A copy of a list of object names.
fn copy_handles(handles: &Vec<u32>) -> (copy: Vec<u32>)
    ensures
        copy@ == handles@,
{
    let mut copy: Vec<u32> = Vec::new();
    let mut i: usize = 0;
    while i < handles.len()
        invariant
            i <= handles@.len(),
            copy@ == handles@.take(i as int),
        decreases handles@.len() - i,
    {
        copy.push(handles[i]);
        assert(handles@.take(i + 1) =~= handles@.take(i as int).push(handles@[i as int]));
        i = i + 1;
    }
    assert(handles@.take(i as int) =~= handles@);
    copy
}

impl ProgramBuilder {
    /// Starts the assembly of a program from the stages that have a source.
    ///
    /// The stages are compiled in the order of [`ShaderType::each`] and then
    /// linked into one program.
    pub fn build(&self) -> (build: ProgramBuild)
        ensures
            build@.stages == supplied(self@),
            build@.shaders == Seq::<u32>::empty(),
    {
        let all: [ShaderType; 6] = ShaderType::each();
        let mut stages: Vec<StageSource> = Vec::new();
        let ghost mut listed: Seq<(ShaderType, Seq<char>)> = Seq::empty();
        let mut i: usize = 0;
        proof {
            self.lemma_one_entry_per_stage();
        }
        while i < 6
            invariant
                i <= 6,
                all@ == stage_order(),
                self@.len() == STAGE_COUNT,
                listed == supplied_among(self@, i as int),
                listed.len() == stages@.len(),
                forall|j: int|
                    0 <= j < stages@.len() ==> listed[j] == (
                        (#[trigger] stages@[j]).stage,
                        stages@[j].source@,
                    ),
            decreases 6 - i,
        {
            let ty: ShaderType = all[i];
            match self.code.get(ty) {
                Some(source) => {
                    stages.push(StageSource { stage: ty, source: source.clone() });
                    proof {
                        listed = listed.push((ty, source@));
                    }
                },
                None => {},
            }
            i = i + 1;
        }
        let build = ProgramBuild { stages, shaders: Vec::new() };
        assert(build@.stages =~= supplied(self@));
        build
    }
}

/// The message for a uniform that the program does not have.
pub open spec fn missing_uniform_text(name: Seq<char>) -> Seq<char> {
    "could not bind uniform \""@ + name + "\""@
}

/// The message for an attribute that the program does not have.
pub open spec fn missing_attribute_text(name: Seq<char>) -> Seq<char> {
    "could not bind attribute \""@ + name + "\""@
}

/// The location that a program reports for a name it does not have.
pub const NO_LOCATION: i32 = -1;

/// Turns the answer of the graphics API to the question for the uniform
/// `name` into a result: the location, or an error that names the uniform
/// where the program has none of that name.
///
/// A caller to whom the uniform is optional treats the error as the
/// absence of the feature.
pub fn uniform_location(name: &str, location: i32) -> (found: Result<i32, Error>)
    ensures
        location != NO_LOCATION ==> found == Ok::<i32, Error>(location),
        location == NO_LOCATION ==> found is Err && found->Err_0@ == missing_uniform_text(name@),
{
    if location == NO_LOCATION {
        let message = String::from_str("could not bind uniform \"").concat(name).concat("\"");
        Err(Error::new(message.as_str()))
    } else {
        Ok(location)
    }
}

/// Turns the answer of the graphics API to the question for the attribute
/// `name` into a result: the location, or an error that names the
/// attribute where the program has none of that name.
pub fn attribute_location(name: &str, location: i32) -> (found: Result<i32, Error>)
    ensures
        location != NO_LOCATION ==> found == Ok::<i32, Error>(location),
        location == NO_LOCATION ==> found is Err && found->Err_0@ == missing_attribute_text(
            name@,
        ),
{
    if location == NO_LOCATION {
        let message = String::from_str("could not bind attribute \"").concat(name).concat("\"");
        Err(Error::new(message.as_str()))
    } else {
        Ok(location)
    }
}

/// The message of a failed compilation contains the name of the stage and
/// ends with the diagnostic of the compiler, letter for letter.
pub proof fn lemma_compile_error_names_stage_and_log(stage: ShaderType, log: Seq<char>)
    ensures
        compile_error_text(stage, log).subrange(9, 9 + stage.name().len() as int) == stage.name(),
        compile_error_text(stage, log).subrange(
            compile_error_text(stage, log).len() - log.len(),
            compile_error_text(stage, log).len() as int,
        ) == log,
{
    reveal_strlit("error in ");
    let text = compile_error_text(stage, log);
    assert(text.subrange(9, 9 + stage.name().len() as int) =~= stage.name());
    assert(text.subrange(text.len() - log.len(), text.len() as int) =~= log);
}

/// The objects that the first `n` of `outcomes` created.
pub open spec fn objects_of(outcomes: Seq<(u32, Option<Seq<char>>)>, n: int) -> Seq<u32> {
    Seq::new(n as nat, |i: int| outcomes[i].0)
}

/// No object of an assembly is leaked, and none outlives a failure.
///
/// When an assembly that started without any shader object is over, the
/// shader objects it deletes are exactly those that were created, in the
/// order of their creation. If every stage compiled, the operation after
/// the last stage created the program object, which is returned if it
/// linked and deleted if not, never both. If a stage failed, there is no
/// program object: none is returned and none deleted.
pub proof fn lemma_no_object_is_leaked(
    stages: Seq<(ShaderType, Seq<char>)>,
    outcomes: Seq<(u32, Option<Seq<char>>)>,
)
    ensures
        assembly(BuildState { stages, shaders: Seq::empty() }, outcomes) matches Progress::Finished(
            end,
        ) ==> {
            let created = end.delete_shaders.len() as int;
            &&& created <= outcomes.len()
            &&& created <= stages.len()
            &&& end.delete_shaders == objects_of(outcomes, created)
            &&& end.program is Ok ==> {
                &&& created == stages.len()
                &&& created < outcomes.len()
                &&& end.program == Ok::<u32, Seq<char>>(outcomes[created].0)
                &&& end.delete_program is None
            }
            &&& end.delete_program is Some ==> {
                &&& created == stages.len()
                &&& created < outcomes.len()
                &&& end.delete_program == Some(outcomes[created].0)
                &&& end.program is Err
            }
            &&& (end.program is Err && end.delete_program is None) ==> {
                &&& created >= 1
                &&& outcomes[created - 1].1 is Some
            }
        },
        assembly(BuildState { stages, shaders: Seq::empty() }, outcomes) matches Progress::Pending(
            next,
        ) ==> next.stages == stages && next.shaders == objects_of(outcomes, outcomes.len() as int),
{
    let nothing = Seq::<(u32, Option<Seq<char>>)>::empty();
    assert(Seq::<u32>::empty() =~= objects_of(nothing, 0));
    assert(nothing + outcomes =~= outcomes);
    lemma_assembly(BuildState { stages, shaders: Seq::empty() }, outcomes, nothing);
}

proof fn lemma_assembly(
    state: BuildState,
    outcomes: Seq<(u32, Option<Seq<char>>)>,
    earlier: Seq<(u32, Option<Seq<char>>)>,
)
    requires
        state.shaders.len() <= state.stages.len(),
        state.shaders == objects_of(earlier, earlier.len() as int),
        forall|i: int| 0 <= i < earlier.len() ==> earlier[i].1 is None,
    ensures
        assembly(state, outcomes) matches Progress::Finished(end) ==> {
            let all = earlier + outcomes;
            let created = end.delete_shaders.len() as int;
            &&& created <= all.len()
            &&& end.delete_shaders == objects_of(all, created)
            &&& created <= state.stages.len()
            &&& (end.program is Err && end.delete_program is None) ==> created >= 1 && all[created
                - 1].1 is Some
            &&& end.program is Ok ==> {
                &&& created == state.stages.len()
                &&& created < all.len()
                &&& end.program == Ok::<u32, Seq<char>>(all[created].0)
                &&& end.delete_program is None
            }
            &&& end.delete_program is Some ==> {
                &&& created == state.stages.len()
                &&& created < all.len()
                &&& end.delete_program == Some(all[created].0)
                &&& end.program is Err
            }
        },
        assembly(state, outcomes) matches Progress::Pending(next) ==> next.stages == state.stages
            && next.shaders == objects_of(earlier + outcomes, (earlier + outcomes).len() as int),
    decreases outcomes.len(),
{
    let all = earlier + outcomes;
    if outcomes.len() == 0 {
        assert(all =~= earlier);
    } else {
        let first = outcomes.first();
        assert(all[earlier.len() as int] == first);
        match progress(state, first.0, first.1) {
            Progress::Pending(next) => {
                let longer = earlier.push(first);
                assert(longer + outcomes.drop_first() =~= all);
                assert(next.shaders =~= objects_of(longer, longer.len() as int));
                lemma_assembly(next, outcomes.drop_first(), longer);
            },
            Progress::Finished(end) => {
                if state.compiling() {
                    assert(end.delete_shaders =~= objects_of(all, earlier.len() as int + 1));
                } else {
                    assert(end.delete_shaders =~= objects_of(all, earlier.len() as int));
                }
            },
        }
    }
}

} // verus!
