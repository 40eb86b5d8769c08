use render_host::commands::{Command, DrawMode};
use render_host::registry::{vertex_count, GlData, Texture, VertexArray};

fn texture(id: u32, uniform_location: i32) -> Texture {
    Texture { id, uniform_location, width: 64, height: 32 }
}

fn scene() -> GlData {
    let mut data = GlData::new();
    data.program = 9;
    data.add_geometry(21, 31, 30, &[3, 2]).unwrap();
    data.add_geometry(22, 32, 12, &[2]).unwrap();
    data.add_texture(texture(41, 7));
    data.add_texture(texture(42, 3));
    data.add_texture(texture(43, 5));
    data
}

#[test]
fn vertex_count_is_floats_over_components() {
    assert_eq!(vertex_count(15, &[3, 2]), Ok(3));
    assert_eq!(vertex_count(30, &[3, 2]), Ok(6));
    assert_eq!(vertex_count(0, &[3, 2]), Ok(0));
    assert_eq!(vertex_count(8, &[2]), Ok(4));
    assert_eq!(vertex_count(7, &[7, 0]), Ok(1));
    assert_eq!(vertex_count(6, &[5, -2]), Ok(2));
}

#[test]
fn vertex_count_with_a_remainder_is_malformed() {
    let error = vertex_count(16, &[3, 2]).unwrap_err();
    assert_eq!(error.details(), "vertices do not match the vertex components");
    assert!(vertex_count(1, &[2]).is_err());
    assert!(vertex_count(9, &[5]).is_err());
}

#[test]
fn vertex_count_without_components_is_malformed() {
    assert!(vertex_count(0, &[]).is_err());
    assert!(vertex_count(4, &[]).is_err());
    assert!(vertex_count(4, &[0, 0]).is_err());
    assert!(vertex_count(4, &[2, -2]).is_err());
    assert!(vertex_count(4, &[1, -3]).is_err());
}

#[test]
fn vertex_count_at_the_limits() {
    assert_eq!(vertex_count(i32::MAX as usize, &[1]), Ok(i32::MAX));
    assert_eq!(vertex_count(i32::MAX as usize, &[i32::MAX]), Ok(1));
    assert!(vertex_count(i32::MAX as usize + 1, &[1]).is_err());
    assert!(vertex_count(4, &[i32::MAX, 1]).is_err());
    assert_eq!(vertex_count(4, &[i32::MAX, i32::MIN, 3]), Ok(2));
}

#[test]
fn new_registry_owns_nothing() {
    let data = GlData::new();
    assert!(data.textures.is_empty());
    assert!(data.buffers.is_empty());
    assert!(data.vertex_arrays.is_empty());
    assert_eq!(data.program, 0);
}

#[test]
fn add_geometry_records_buffer_and_vertex_count() {
    let data = scene();
    assert_eq!(data.buffers, vec![21, 22]);
    assert_eq!(
        data.vertex_arrays,
        vec![VertexArray { id: 31, vertex_count: 6 }, VertexArray { id: 32, vertex_count: 6 }]
    );
}

#[test]
fn malformed_geometry_is_refused_and_changes_nothing() {
    let mut data = scene();
    let error = data.add_geometry(23, 33, 31, &[3, 2]).unwrap_err();
    assert_eq!(error.details(), "vertices do not match the vertex components");
    assert_eq!(data, scene());
}

#[test]
fn textures_get_units_in_creation_order() {
    let mut data = GlData::new();
    assert_eq!(data.add_texture(texture(41, 7)), 0);
    assert_eq!(data.add_texture(texture(42, 3)), 1);
    assert_eq!(data.add_texture(texture(43, 5)), 2);
    assert_eq!(data.textures, vec![texture(41, 7), texture(42, 3), texture(43, 5)]);
}

#[test]
fn samplers_are_tied_to_their_units() {
    assert_eq!(
        scene().bind_samplers(),
        vec![
            Command::UseProgram { program: 9 },
            Command::SetSampler { location: 7, unit: 0 },
            Command::SetSampler { location: 3, unit: 1 },
            Command::SetSampler { location: 5, unit: 2 },
        ]
    );
    assert_eq!(GlData::new().bind_samplers(), vec![Command::UseProgram { program: 0 }]);
}

#[test]
fn draw_binds_program_then_textures_then_draws_each_vertex_array() {
    assert_eq!(
        scene().draw(Some(1), Some(2)),
        vec![
            Command::UseProgram { program: 9 },
            Command::SetElapsedTime { location: 1 },
            Command::SetViewProjection { location: 2 },
            Command::ActiveTexture { unit: 0 },
            Command::BindTexture { texture: 41 },
            Command::ActiveTexture { unit: 1 },
            Command::BindTexture { texture: 42 },
            Command::ActiveTexture { unit: 2 },
            Command::BindTexture { texture: 43 },
            Command::BindVertexArray { vertex_array: 31 },
            Command::DrawArrays { mode: DrawMode::Triangles, first: 0, count: 6 },
            Command::BindVertexArray { vertex_array: 32 },
            Command::DrawArrays { mode: DrawMode::Triangles, first: 0, count: 6 },
        ]
    );
}

#[test]
fn draw_skips_the_uniforms_that_the_program_lacks() {
    let mut data = GlData::new();
    data.program = 4;
    data.add_geometry(1, 2, 9, &[3]).unwrap();
    let draws = vec![
        Command::BindVertexArray { vertex_array: 2 },
        Command::DrawArrays { mode: DrawMode::Triangles, first: 0, count: 3 },
    ];
    let mut expected = vec![Command::UseProgram { program: 4 }];
    expected.extend(draws.clone());
    assert_eq!(data.draw(None, None), expected);
    let mut expected = vec![
        Command::UseProgram { program: 4 },
        Command::SetViewProjection { location: 8 },
    ];
    expected.extend(draws.clone());
    assert_eq!(data.draw(None, Some(8)), expected);
    let mut expected = vec![
        Command::UseProgram { program: 4 },
        Command::SetElapsedTime { location: 6 },
    ];
    expected.extend(draws);
    assert_eq!(data.draw(Some(6), None), expected);
}

#[test]
fn draw_binds_the_program_exactly_once() {
    let commands = scene().draw(Some(1), Some(2));
    let programs = commands.iter().filter(|c| matches!(c, Command::UseProgram { .. })).count();
    assert_eq!(programs, 1);
    assert_eq!(commands[0], Command::UseProgram { program: 9 });
}

#[test]
fn release_deletes_textures_vertex_arrays_buffers_program_in_that_order() {
    let mut data = scene();
    assert_eq!(
        data.release(),
        vec![
            Command::DeleteTexture { texture: 41 },
            Command::DeleteTexture { texture: 42 },
            Command::DeleteTexture { texture: 43 },
            Command::DeleteVertexArray { vertex_array: 31 },
            Command::DeleteVertexArray { vertex_array: 32 },
            Command::DeleteBuffer { buffer: 21 },
            Command::DeleteBuffer { buffer: 22 },
            Command::DeleteProgram { program: 9 },
        ]
    );
    assert_eq!(data, GlData::new());
}

#[test]
fn release_is_idempotent() {
    let mut data = scene();
    assert_eq!(data.release().len(), 8);
    assert_eq!(data.release(), vec![]);
    assert_eq!(data.release(), vec![]);
}

#[test]
fn release_with_empty_lists() {
    let mut data = GlData::new();
    assert_eq!(data.release(), vec![]);
    data.program = 3;
    assert_eq!(data.release(), vec![Command::DeleteProgram { program: 3 }]);
    data.add_texture(texture(5, 1));
    assert_eq!(data.release(), vec![Command::DeleteTexture { texture: 5 }]);
    data.buffers.push(8);
    assert_eq!(data.release(), vec![Command::DeleteBuffer { buffer: 8 }]);
}

#[test]
fn released_registry_draws_no_geometry() {
    let mut data = scene();
    data.release();
    assert_eq!(data.draw(None, None), vec![Command::UseProgram { program: 0 }]);
}
