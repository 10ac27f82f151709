use viewer4d::matrix::mat_mul;
use viewer4d::mesh::{consecutive_attrib_layout, Mesh, INDEX_TYPE_U32};
use viewer4d::objects::{upload_records, Object, ObjectType};
use viewer4d::transform4d::{full_transform, shift, Rotation6, Rotor, Vector4};

#[test]
fn mesh_records_its_handles_and_indices() {
    let mut mesh = Mesh::new(11, 22, 33);
    assert_eq!(mesh.vao(), 11);
    assert_eq!(mesh.vbo(), 22);
    assert_eq!(mesh.ebo(), 33);
    assert_eq!(mesh.indices_count(), 0);
    assert_eq!(mesh.index_type(), INDEX_TYPE_U32);
    mesh.set_indices(9, 0x1403);
    assert_eq!(mesh.indices_count(), 9);
    assert_eq!(mesh.index_type(), 0x1403);
    mesh.set_indices_u32_tuples(2);
    assert_eq!(mesh.indices_count(), 6);
    assert_eq!(mesh.index_type(), INDEX_TYPE_U32);
}

#[test]
fn one_attribute_takes_the_whole_stride() {
    const FLOAT_TYPE: u32 = 0x1406;
    let attribs: Vec<(usize, usize, u32)> = vec![(3, 4, FLOAT_TYPE)];
    let layout = consecutive_attrib_layout(0, &attribs).unwrap();
    assert_eq!(layout.len(), 1);
    assert_eq!(layout[0].index, 0);
    assert_eq!(layout[0].count, 3);
    assert_eq!(layout[0].elem_type, FLOAT_TYPE);
    assert_eq!(layout[0].stride, 12);
    assert_eq!(layout[0].offset, 0);
}

#[test]
fn interleaved_attributes_share_the_stride_and_stack_offsets() {
    const FLOAT_TYPE: u32 = 0x1406;
    let attribs: Vec<(usize, usize, u32)> = vec![(3, 4, FLOAT_TYPE), (3, 4, FLOAT_TYPE)];
    let layout = consecutive_attrib_layout(2, &attribs).unwrap();
    assert_eq!(layout.len(), 2);
    assert_eq!(layout[0].index, 2);
    assert_eq!(layout[1].index, 3);
    assert_eq!(layout[0].stride, 24);
    assert_eq!(layout[1].stride, 24);
    assert_eq!(layout[0].offset, 0);
    assert_eq!(layout[1].offset, 12);
}

#[test]
fn oversized_attributes_are_refused() {
    let attribs: Vec<(usize, usize, u32)> = vec![(usize::MAX, 2, 0)];
    assert!(consecutive_attrib_layout(0, &attribs).is_none());
}

#[test]
fn shape_identifiers_are_stable() {
    assert_eq!(ObjectType::Cube.shape_id(), 0);
    assert_eq!(ObjectType::Sphere.shape_id(), 1);
    assert_eq!(ObjectType::CubeFrame.shape_id(), 2);
}

#[test]
fn upload_records_pair_shapes_with_certified_inverses() {
    let rs = Rotation6::new(
        Rotor::new(3, 4, 5).unwrap(),
        Rotor::identity(),
        Rotor::identity(),
        Rotor::identity(),
        Rotor::identity(),
        Rotor::new(0, 1, 1).unwrap(),
    );
    let objects: Vec<Object> = vec![
        Object {
            obj_type: ObjectType::Cube,
            transform: full_transform(
                &Vector4::from_ints(2, -1, 0, 0),
                &Vector4::from_ints(1, 1, 1, 1),
                &rs,
            )
            .unwrap(),
        },
        Object {
            obj_type: ObjectType::CubeFrame,
            transform: shift(&Vector4::from_ints(2, 1, 0, 0)).unwrap(),
        },
    ];
    let records = upload_records(&objects).unwrap();
    assert_eq!(records.len(), 2);
    assert_eq!(records[0].shape, 0);
    assert_eq!(records[1].shape, 2);
    for (obj, rec) in objects.iter().zip(records.iter()) {
        assert!(mat_mul(&obj.transform, &rec.inverse).unwrap().is_identity());
        assert!(mat_mul(&rec.inverse, &obj.transform).unwrap().is_identity());
    }
}

#[test]
fn a_flattened_object_cannot_be_uploaded() {
    let objects: Vec<Object> = vec![Object {
        obj_type: ObjectType::Sphere,
        transform: viewer4d::transform4d::scale(&Vector4::from_ints(1, 0, 1, 1)).unwrap(),
    }];
    assert!(upload_records(&objects).is_none());
}
