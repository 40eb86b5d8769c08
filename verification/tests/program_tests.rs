use render_host::error::Error;
use render_host::program::{
    attribute_location, uniform_location, BuildRequest, BuildResult, BuildStep, Outcome,
    ProgramBuild, ProgramBuilder, NO_LOCATION,
};
use render_host::shader::{ShaderCode, ShaderType};

fn ok(object: u32) -> Outcome {
    Outcome { object, log: None }
}

fn failed(object: u32, log: &str) -> Outcome {
    Outcome { object, log: Some(log.to_string()) }
}

fn pending(step: BuildStep) -> ProgramBuild {
    match step {
        BuildStep::Pending(build) => build,
        BuildStep::Finished(end) => panic!("finished early: {:?}", end),
    }
}

fn finished(step: BuildStep) -> BuildResult {
    match step {
        BuildStep::Finished(end) => end,
        BuildStep::Pending(build) => panic!("not finished: {:?}", build),
    }
}

fn vertex_and_fragment() -> ProgramBuilder {
    let mut builder = ProgramBuilder::new();
    builder.vertex_shader_code("void main() { v }").fragment_shader_code("void main() { f }");
    builder
}

#[test]
fn stages_are_compiled_in_order_and_then_linked() {
    let build = vertex_and_fragment().build();
    assert_eq!(
        build.request(),
        BuildRequest::Compile {
            stage: ShaderType::Vertex,
            source: "void main() { v }".to_string()
        }
    );
    let build = pending(build.advance(ok(11)));
    assert_eq!(
        build.request(),
        BuildRequest::Compile {
            stage: ShaderType::Fragment,
            source: "void main() { f }".to_string()
        }
    );
    let build = pending(build.advance(ok(12)));
    assert_eq!(build.request(), BuildRequest::Link { shaders: vec![11, 12] });
    let end = finished(build.advance(ok(40)));
    assert_eq!(
        end,
        BuildResult { delete_shaders: vec![11, 12], delete_program: None, program: Ok(40) }
    );
}

#[test]
fn failed_vertex_compile_names_the_stage_and_repeats_the_log() {
    let build = vertex_and_fragment().build();
    let end = finished(build.advance(failed(11, "0:1(1): error: syntax error")));
    assert_eq!(
        end.program,
        Err(Error::new("error in vertex shader : 0:1(1): error: syntax error"))
    );
    assert_eq!(end.delete_shaders, vec![11]);
    assert_eq!(end.delete_program, None);
    let message = end.program.unwrap_err().to_text();
    assert!(message.contains("vertex"));
    assert!(message.contains("0:1(1): error: syntax error"));
}

#[test]
fn failed_fragment_compile_deletes_the_vertex_shader_too() {
    let build = vertex_and_fragment().build();
    let build = pending(build.advance(ok(11)));
    let end = finished(build.advance(failed(12, "undeclared identifier")));
    assert_eq!(
        end,
        BuildResult {
            delete_shaders: vec![11, 12],
            delete_program: None,
            program: Err(Error::new("error in fragment shader : undeclared identifier")),
        }
    );
}

#[test]
fn failed_compile_with_an_empty_log() {
    let build = vertex_and_fragment().build();
    let end = finished(build.advance(failed(11, "")));
    assert_eq!(end.program, Err(Error::new("error in vertex shader : ")));
}

#[test]
fn failed_link_returns_the_log_and_deletes_the_program() {
    let build = vertex_and_fragment().build();
    let build = pending(build.advance(ok(11)));
    let build = pending(build.advance(ok(12)));
    let end = finished(build.advance(failed(40, "error: linking failed")));
    assert_eq!(
        end,
        BuildResult {
            delete_shaders: vec![11, 12],
            delete_program: Some(40),
            program: Err(Error::new("error: linking failed")),
        }
    );
}

#[test]
fn builder_without_sources_links_nothing() {
    let build = ProgramBuilder::new().build();
    assert_eq!(build.request(), BuildRequest::Link { shaders: vec![] });
    let end = finished(build.advance(ok(5)));
    assert_eq!(end, BuildResult { delete_shaders: vec![], delete_program: None, program: Ok(5) });
}

#[test]
fn every_setter_sets_its_own_stage() {
    let mut builder = ProgramBuilder::new();
    builder
        .compute_shader_code("c")
        .geometry_shader_code("g")
        .tess_eval_shader_code("te")
        .tess_control_shader_code("tc")
        .fragment_shader_code("f")
        .vertex_shader_code("v");
    let mut build = builder.build();
    let expected = [
        (ShaderType::Vertex, "v"),
        (ShaderType::Fragment, "f"),
        (ShaderType::TessControl, "tc"),
        (ShaderType::TessEval, "te"),
        (ShaderType::Geometry, "g"),
        (ShaderType::Compute, "c"),
    ];
    for (i, (stage, source)) in expected.iter().enumerate() {
        assert_eq!(
            build.request(),
            BuildRequest::Compile { stage: *stage, source: source.to_string() }
        );
        build = pending(build.advance(ok(100 + i as u32)));
    }
    assert_eq!(
        build.request(),
        BuildRequest::Link { shaders: vec![100, 101, 102, 103, 104, 105] }
    );
}

#[test]
fn a_setter_replaces_the_earlier_source() {
    let mut builder = ProgramBuilder::new();
    builder.vertex_shader_code("old").vertex_shader_code("new");
    assert_eq!(
        builder.build().request(),
        BuildRequest::Compile { stage: ShaderType::Vertex, source: "new".to_string() }
    );
}

#[test]
fn code_takes_over_only_what_is_there() {
    let mut code = ShaderCode::new();
    code.set(ShaderType::Fragment, Some("f2".to_string()));
    code.set(ShaderType::Compute, Some("c2".to_string()));
    let mut builder = ProgramBuilder::new();
    builder.vertex_shader_code("v1").fragment_shader_code("f1").code(&code);
    let build = builder.build();
    assert_eq!(
        build.request(),
        BuildRequest::Compile { stage: ShaderType::Vertex, source: "v1".to_string() }
    );
    let build = pending(build.advance(ok(1)));
    assert_eq!(
        build.request(),
        BuildRequest::Compile { stage: ShaderType::Fragment, source: "f2".to_string() }
    );
    let build = pending(build.advance(ok(2)));
    assert_eq!(
        build.request(),
        BuildRequest::Compile { stage: ShaderType::Compute, source: "c2".to_string() }
    );
    let build = pending(build.advance(ok(3)));
    assert_eq!(build.request(), BuildRequest::Link { shaders: vec![1, 2, 3] });
}

#[test]
fn request_does_not_change_the_build() {
    let build = vertex_and_fragment().build();
    assert_eq!(build.request(), build.request());
}

#[test]
fn found_uniform_is_returned() {
    assert_eq!(uniform_location("mvp", 3), Ok(3));
    assert_eq!(uniform_location("mvp", 0), Ok(0));
    assert_eq!(attribute_location("position", 1), Ok(1));
}

#[test]
fn missing_uniform_is_an_error_that_names_it() {
    assert_eq!(NO_LOCATION, -1);
    assert_eq!(
        uniform_location("time", -1),
        Err(Error::new("could not bind uniform \"time\""))
    );
    assert_eq!(
        attribute_location("normal", -1),
        Err(Error::new("could not bind attribute \"normal\""))
    );
}

#[test]
fn optional_uniform_is_absent_not_fatal() {
    assert_eq!(uniform_location("time", -1).ok(), None);
    assert_eq!(uniform_location("time", 4).ok(), Some(4));
}
