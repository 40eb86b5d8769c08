use render_host::buffer::{checked_buffer_data, named_buffer_data, BufferData, BufferUsage};

fn all_usages() -> Vec<(BufferUsage, u32)> {
    vec![
        (BufferUsage::StreamDraw, gl::STREAM_DRAW),
        (BufferUsage::StreamRead, gl::STREAM_READ),
        (BufferUsage::StreamCopy, gl::STREAM_COPY),
        (BufferUsage::StaticDraw, gl::STATIC_DRAW),
        (BufferUsage::StaticRead, gl::STATIC_READ),
        (BufferUsage::StaticCopy, gl::STATIC_COPY),
        (BufferUsage::DynamicDraw, gl::DYNAMIC_DRAW),
        (BufferUsage::DynamicRead, gl::DYNAMIC_READ),
        (BufferUsage::DynamicCopy, gl::DYNAMIC_COPY),
    ]
}

#[test]
fn usage_hints_map_to_their_enumerants() {
    for (usage, constant) in all_usages() {
        assert_eq!(usage.as_gl_enum(), constant);
    }
    assert_eq!(BufferUsage::StreamDraw.as_gl_enum(), 0x88E0);
    assert_eq!(BufferUsage::StaticDraw.as_gl_enum(), 0x88E4);
    assert_eq!(BufferUsage::DynamicCopy.as_gl_enum(), 0x88EA);
}

#[test]
fn usage_enumerants_are_distinct() {
    let all = all_usages();
    for i in 0..all.len() {
        for j in 0..all.len() {
            if i != j {
                assert_ne!(all[i].0.as_gl_enum(), all[j].0.as_gl_enum());
            }
        }
    }
}

#[test]
fn upload_size_is_length_times_element_size_for_every_usage() {
    let data: [f32; 6] = [0.0, 1.0, 2.0, 3.0, 4.0, 5.0];
    for (usage, constant) in all_usages() {
        let upload = named_buffer_data(7, &data, usage);
        assert_eq!(upload, BufferData { buffer: 7, size: 24, usage: constant });
    }
}

#[test]
fn upload_size_follows_the_element_type() {
    let bytes: [u8; 5] = [1, 2, 3, 4, 5];
    assert_eq!(named_buffer_data(1, &bytes, BufferUsage::StaticDraw).size, 5);
    let wide: [u64; 5] = [1, 2, 3, 4, 5];
    assert_eq!(named_buffer_data(1, &wide, BufferUsage::StaticDraw).size, 40);
    let pairs: [[f32; 2]; 3] = [[0.0, 0.0], [1.0, 1.0], [2.0, 2.0]];
    assert_eq!(named_buffer_data(1, &pairs, BufferUsage::StreamRead).size, 24);
}

#[test]
fn empty_upload_has_size_zero() {
    let nothing: [f32; 0] = [];
    let upload = named_buffer_data(3, &nothing, BufferUsage::DynamicDraw);
    assert_eq!(upload.size, 0);
    assert_eq!(upload.buffer, 3);
}

#[test]
fn checked_upload_agrees_with_the_plain_one() {
    let data: Vec<f32> = vec![0.5; 100];
    for (usage, _) in all_usages() {
        assert_eq!(
            checked_buffer_data(9, &data, usage),
            Some(named_buffer_data(9, &data, usage))
        );
    }
    assert_eq!(checked_buffer_data(9, &data, BufferUsage::StaticDraw).unwrap().size, 400);
}

#[test]
fn checked_upload_of_unit_elements() {
    let units: Vec<()> = vec![(); 1000];
    assert_eq!(checked_buffer_data(2, &units, BufferUsage::StaticCopy).unwrap().size, 0);
}
