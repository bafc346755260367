use urdf_viz::{
    convert_xacro_if_needed_and_get_path, get_cache_dir, xacro_command_args, DescriptionSource,
};

#[test]
fn cache_dir_default() {
    assert_eq!(get_cache_dir(), "/tmp/urdf_viz/");
}

#[test]
fn xacro_input_maps_to_cache_target_with_urdf_extension() {
    let r = convert_xacro_if_needed_and_get_path("/home/user/robo.xacro", get_cache_dir());
    assert_eq!(
        r,
        DescriptionSource::Expand {
            source: "/home/user/robo.xacro".to_string(),
            target: "/tmp/urdf_viz//home/user/robo.urdf".to_string(),
        }
    );
}

#[test]
fn xacro_input_uses_given_cache_dir() {
    let r = convert_xacro_if_needed_and_get_path("models/arm.xacro", "/var/cache/");
    assert_eq!(
        r,
        DescriptionSource::Expand {
            source: "models/arm.xacro".to_string(),
            target: "/var/cache/models/arm.urdf".to_string(),
        }
    );
}

#[test]
fn plain_input_passes_through() {
    let r = convert_xacro_if_needed_and_get_path("/home/user/robo.urdf", get_cache_dir());
    assert_eq!(r, DescriptionSource::Plain("/home/user/robo.urdf".to_string()));
}

#[test]
fn input_without_extension_passes_through() {
    assert_eq!(
        convert_xacro_if_needed_and_get_path("/home/user/robo", get_cache_dir()),
        DescriptionSource::Plain("/home/user/robo".to_string())
    );
}

#[test]
fn other_extension_passes_through() {
    assert_eq!(
        convert_xacro_if_needed_and_get_path("arm.xacro.bak", "/var/cache/"),
        DescriptionSource::Plain("arm.xacro.bak".to_string())
    );
}

#[test]
fn xacro_arguments() {
    let a = xacro_command_args("in.xacro", "/tmp/out.urdf");
    assert_eq!(a, vec!["xacro", "xacro", "--inorder", "in.xacro", "-o", "/tmp/out.urdf"]);
}
