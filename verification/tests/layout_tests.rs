use render_host::layout::{vertex_layout, VertexAttribute, FLOAT_SIZE};

fn expected_offset(components: &[i32], i: usize) -> usize {
    let before: i32 = components[..i].iter().sum();
    before as usize * std::mem::size_of::<f32>()
}

#[test]
fn float_size_is_the_size_of_a_float() {
    assert_eq!(FLOAT_SIZE, std::mem::size_of::<f32>());
}

#[test]
fn stride_and_offsets_of_position_and_texcoord() {
    let layout = vertex_layout(&[3, 2]).unwrap();
    assert_eq!(layout.stride, 20);
    assert_eq!(
        layout.attributes,
        vec![
            VertexAttribute { index: 0, components: 3, offset: 0 },
            VertexAttribute { index: 1, components: 2, offset: 12 },
        ]
    );
}

#[test]
fn single_attribute_of_two_components() {
    let layout = vertex_layout(&[2]).unwrap();
    assert_eq!(layout.stride, 8);
    assert_eq!(layout.attributes, vec![VertexAttribute { index: 0, components: 2, offset: 0 }]);
}

#[test]
fn stride_is_the_sum_and_offsets_are_cumulative() {
    let lists: Vec<Vec<i32>> = vec![
        vec![],
        vec![1],
        vec![4, 4, 4, 4],
        vec![3, 3, 2, 4, 1],
        vec![0, 2, 0, 3],
        vec![1, 2, 3, 4, 5, 6, 7, 8, 9],
    ];
    for components in lists {
        let layout = vertex_layout(&components).unwrap();
        let sum: i32 = components.iter().sum();
        assert_eq!(layout.stride, sum * std::mem::size_of::<f32>() as i32);
        assert_eq!(layout.attributes.len(), components.len());
        for (i, attribute) in layout.attributes.iter().enumerate() {
            assert_eq!(attribute.index, i as u32);
            assert_eq!(attribute.components, components[i]);
            assert_eq!(attribute.offset, expected_offset(&components, i));
        }
    }
}

#[test]
fn empty_list_has_an_empty_layout() {
    let layout = vertex_layout(&[]).unwrap();
    assert_eq!(layout.stride, 0);
    assert!(layout.attributes.is_empty());
}

#[test]
fn negative_component_count_is_refused() {
    let error = vertex_layout(&[3, -1, 2]).unwrap_err();
    assert_eq!(error.details(), "vertex components do not describe a layout");
}

#[test]
fn stride_that_does_not_fit_is_refused() {
    assert!(vertex_layout(&[536_870_911]).is_ok());
    assert_eq!(vertex_layout(&[536_870_911]).unwrap().stride, 2_147_483_644);
    assert!(vertex_layout(&[536_870_912]).is_err());
    assert!(vertex_layout(&[i32::MAX]).is_err());
    assert!(vertex_layout(&[400_000_000, 136_870_911]).is_ok());
    assert!(vertex_layout(&[400_000_000, 136_870_912]).is_err());
    assert!(vertex_layout(&[i32::MAX, i32::MAX, i32::MAX, i32::MAX, 8]).is_err());
}

#[test]
fn negative_count_after_a_large_one_is_refused() {
    assert!(vertex_layout(&[536_870_912, -536_870_912]).is_err());
}
