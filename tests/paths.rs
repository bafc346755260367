use std::path::Path;
use urdf_viz::{expand_package_path, join_path_exec, package_to_locate, ResolveError};

#[test]
fn test_func() {
    let input = Path::new("/home/user/robo.urdf");
    let base = input.parent().unwrap().to_str().unwrap();
    assert!(expand_package_path("mesh/aaa.obj", base, None).unwrap() == "/home/user/mesh/aaa.obj");
}

#[test]
fn relative_name_joins_base_with_separator() {
    assert_eq!(expand_package_path("a/b.dae", "/opt/robot", None).unwrap(), "/opt/robot/a/b.dae");
}

#[test]
fn base_with_trailing_separator_gets_no_second_one() {
    assert_eq!(expand_package_path("b.stl", "/opt/robot/", None).unwrap(), "/opt/robot/b.stl");
}

#[test]
fn absolute_name_replaces_base() {
    assert_eq!(expand_package_path("/abs/m.obj", "/opt/robot", None).unwrap(), "/abs/m.obj");
}

#[test]
fn empty_base_leaves_name() {
    assert_eq!(expand_package_path("m.obj", "", None).unwrap(), "m.obj");
}

#[test]
fn non_package_name_ignores_located_dir() {
    assert_eq!(
        expand_package_path("mesh/aaa.obj", "/home/user", Some("/elsewhere")).unwrap(),
        "/home/user/mesh/aaa.obj"
    );
}

#[test]
fn package_name_is_replaced_by_located_dir() {
    assert_eq!(
        expand_package_path("package://my_robot/meshes/arm.dae", "/ignored", Some("/opt/ros/share/my_robot"))
            .unwrap(),
        "/opt/ros/share/my_robot/meshes/arm.dae"
    );
}

#[test]
fn located_dir_with_trailing_separator_is_normalized() {
    assert_eq!(
        expand_package_path("package://my_robot/meshes/arm.dae", "/ignored", Some("/opt/my_robot/"))
            .unwrap(),
        "/opt/my_robot/meshes/arm.dae"
    );
}

#[test]
fn package_result_does_not_depend_on_base() {
    let a = expand_package_path("package://p1/x/y.obj", "/one", Some("/d")).unwrap();
    let b = expand_package_path("package://p1/x/y.obj", "/two/three", Some("/d")).unwrap();
    assert_eq!(a, "/d/x/y.obj");
    assert_eq!(a, b);
}

#[test]
fn unknown_package_is_an_error_naming_it() {
    assert_eq!(
        expand_package_path("package://missing_pkg/m.obj", "/base", None),
        Err(ResolveError::PackageNotFound("missing_pkg".to_string()))
    );
}

#[test]
fn package_scheme_without_word_name_is_left_unchanged() {
    assert_eq!(
        expand_package_path("package://bad-name/m.obj", "/base", Some("/d")).unwrap(),
        "package://bad-name/m.obj"
    );
    assert_eq!(package_to_locate("package://bad-name/m.obj"), None);
}

#[test]
fn package_to_locate_gives_the_package_name() {
    assert_eq!(package_to_locate("package://my_robot/meshes/arm.dae"), Some("my_robot".to_string()));
    assert_eq!(package_to_locate("meshes/arm.dae"), None);
    assert_eq!(package_to_locate("package://nofile"), None);
}

#[test]
fn join_path_exec_cases() {
    assert_eq!(join_path_exec("/a", "b"), "/a/b");
    assert_eq!(join_path_exec("/a/", "b"), "/a/b");
    assert_eq!(join_path_exec("/a", "/b"), "/b");
    assert_eq!(join_path_exec("", "b"), "b");
}

#[test]
fn package_path_with_empty_rest() {
    assert_eq!(expand_package_path("package://p1/", "/base", Some("/d")).unwrap(), "/d/");
}
