use yaobow_script::scene::{
    model_kind, nav_text, object_source, plan_objects, ModelKind, ObjectSource, PlannedObject,
    SceneNode,
};

fn node(node_type: i32, name: &str) -> SceneNode {
    SceneNode { node_type, name: name.as_bytes().to_vec() }
}

#[test]
fn model_kind_goes_by_the_extension() {
    assert_eq!(model_kind(b"scene/M01/m01.pol"), Some(ModelKind::Pol));
    assert_eq!(model_kind(b"scene/M01/M01.POL"), Some(ModelKind::Pol));
    assert_eq!(model_kind(b"object/gate.Cvd"), Some(ModelKind::Cvd));
    assert_eq!(model_kind(b"role/101/c01.mv3"), Some(ModelKind::Mv3));
    assert_eq!(model_kind(b".pol"), Some(ModelKind::Pol));
    assert_eq!(model_kind(b"pol"), None);
    assert_eq!(model_kind(b""), None);
    assert_eq!(model_kind(b"m01.pol.bak"), None);
    assert_eq!(model_kind(b"m01_pol"), None);
    assert_eq!(model_kind(b"m01.mv4"), None);
    assert_eq!(model_kind(b"m01[pOL"), None);
}

#[test]
fn object_source_goes_by_type_and_name() {
    assert_eq!(object_source(1, b"_door.pol"), Some(ObjectSource::SceneFolder));
    assert_eq!(object_source(1, b"_door"), Some(ObjectSource::SceneFolder));
    assert_eq!(object_source(1, b"gate.cvd"), Some(ObjectSource::ObjectFolder));
    assert_eq!(object_source(1, b"+gate.cvd"), Some(ObjectSource::ObjectFolder));
    assert_eq!(object_source(1, b"+gate"), None);
    assert_eq!(object_source(1, b"sword"), Some(ObjectSource::ItemFolder));
    assert_eq!(object_source(1, b""), None);
    assert_eq!(object_source(37, b"sword"), None);
    assert_eq!(object_source(43, b"_door.pol"), None);
    assert_eq!(object_source(-1, b"."), Some(ObjectSource::ObjectFolder));
}

#[test]
fn plan_holds_the_nodes_with_a_model_in_order() {
    let nodes = vec![
        node(37, "ground"),
        node(1, "_door.pol"),
        node(1, "+mark"),
        node(2, "gate.cvd"),
        node(43, "trigger.cvd"),
        node(2, ""),
        node(3, "sword"),
    ];
    assert_eq!(
        plan_objects(&nodes),
        vec![
            PlannedObject { node: 1, source: ObjectSource::SceneFolder },
            PlannedObject { node: 3, source: ObjectSource::ObjectFolder },
            PlannedObject { node: 6, source: ObjectSource::ItemFolder },
        ]
    );
    assert_eq!(plan_objects(&Vec::new()), Vec::new());
}

#[test]
fn nav_text_draws_rows_of_letters() {
    let rows = vec![vec![0, 1, 2], vec![3, 0, -1]];
    assert_eq!(nav_text(&rows, None), b"_==\n=__\n".to_vec());
    assert_eq!(nav_text(&rows, Some((1, 0))), b"_x=\n=__\n".to_vec());
    assert_eq!(nav_text(&rows, Some((2, 1))), b"_==\n=_x\n".to_vec());
    assert_eq!(nav_text(&rows, Some((3, 1))), b"_==\n=__\n".to_vec());
    assert_eq!(nav_text(&Vec::new(), Some((0, 0))), Vec::<u8>::new());
    assert_eq!(nav_text(&vec![Vec::new(), vec![5]], None), b"\n=\n".to_vec());
}
