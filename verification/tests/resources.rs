use std::path::PathBuf;
use zeebe_rs::client::ClientError;
use zeebe_rs::protocol;
use zeebe_rs::resource::{DeleteResourceRequest, DeployResourceError, DeployResourceRequest, Initial};

#[test]
fn deploy_definitions_in_order() {
    let m = DeployResourceRequest::<Initial>::new()
        .with_definition(String::from("a.bpmn"), vec![1, 2])
        .into_request();
    assert_eq!(m.resources, vec![protocol::Resource { name: String::from("a.bpmn"), content: vec![1, 2] }]);
    assert_eq!(m.tenant_id, "");
    let m = DeployResourceRequest::<Initial>::new()
        .with_definitions(vec![(String::from("x.dmn"), vec![3]), (String::from("y.form"), vec![])])
        .with_tenant(String::from("tenant"))
        .into_request();
    assert_eq!(m.resources.len(), 2);
    assert_eq!(m.resources[0].name, "x.dmn");
    assert_eq!(m.resources[1].name, "y.form");
    assert_eq!(m.tenant_id, "tenant");
}

#[test]
fn read_resource_files_loads_each_file_in_order() {
    let request = DeployResourceRequest::<Initial>::new()
        .with_resource_files(vec![PathBuf::from("/a/one.bpmn"), PathBuf::from("/b/two.dmn")]);
    let loaded = request
        .read_resource_files(|p: &PathBuf| Ok(p.to_string_lossy().as_bytes().to_vec()))
        .unwrap();
    let m = loaded.into_request();
    assert_eq!(m.resources.len(), 2);
    assert_eq!(m.resources[0].name, "one.bpmn");
    assert_eq!(m.resources[0].content, b"/a/one.bpmn".to_vec());
    assert_eq!(m.resources[1].name, "two.dmn");
    assert_eq!(m.resources[1].content, b"/b/two.dmn".to_vec());
}

#[test]
fn read_resource_files_stops_at_a_path_without_a_file_name() {
    let request = DeployResourceRequest::<Initial>::new()
        .with_resource_files(vec![PathBuf::from("ok"), PathBuf::from("dir/.."), PathBuf::from("missing")]);
    let calls = std::cell::Cell::new(0);
    let result = request.read_resource_files(|_p: &PathBuf| {
        calls.set(calls.get() + 1);
        Ok(vec![1])
    });
    match result {
        Err(ClientError::ResourceError(DeployResourceError::MissingName { file_path })) => {
            assert_eq!(file_path, PathBuf::from("dir/.."))
        }
        _ => panic!("expected a missing name"),
    }
    assert_eq!(calls.get(), 2);
}

#[test]
fn read_resource_files_reports_a_failed_read_before_a_missing_name() {
    let request = DeployResourceRequest::<Initial>::new()
        .with_resource_files(vec![PathBuf::from("a.bpmn"), PathBuf::from(".."), PathBuf::from("b.bpmn")]);
    let calls = std::cell::Cell::new(0);
    let result = request.read_resource_files(|p: &PathBuf| {
        calls.set(calls.get() + 1);
        if p == &PathBuf::from("a.bpmn") {
            Ok(vec![])
        } else {
            Err(std::io::Error::new(std::io::ErrorKind::NotFound, "missing"))
        }
    });
    match result {
        Err(ClientError::ResourceError(DeployResourceError::ResourceLoad { file_path, source })) => {
            assert_eq!(file_path, PathBuf::from(".."));
            assert_eq!(source.kind(), std::io::ErrorKind::NotFound);
        }
        _ => panic!("expected a failed read"),
    }
    assert_eq!(calls.get(), 2);
}

#[test]
fn read_resource_files_reports_load_errors() {
    let request = DeployResourceRequest::<Initial>::new().with_resource_file(PathBuf::from("missing"));
    let result = request.read_resource_files(|_p: &PathBuf| {
        Err(std::io::Error::new(std::io::ErrorKind::NotFound, "missing"))
    });
    assert!(matches!(
        result,
        Err(ClientError::ResourceError(DeployResourceError::ResourceLoad { .. }))
    ));
}

#[test]
fn delete_resource_request() {
    let m = DeleteResourceRequest::<Initial>::new()
        .with_resource_key(12345)
        .with_operation_reference(6)
        .into_request();
    assert_eq!(m, protocol::DeleteResourceRequest { resource_key: 12345, operation_reference: Some(6) });
}
