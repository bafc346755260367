//! Scene bookkeeping for an articulated robot viewer: resolving the files
//! that visual geometry refers to, keeping only triangle faces of loaded
//! meshes, and the name-keyed registry of scene nodes with per-link
//! highlight colours.
pub mod mesh;
pub mod name_map;
pub mod options;
pub mod paths;
pub mod viewer;
pub mod xacro;

pub use mesh::triangle_faces;
pub use name_map::NameMap;
pub use options::{Opt, DEFAULT_IK_DOF};
pub use paths::{expand_package_path, join_path_exec, package_to_locate, ResolveError};
pub use viewer::{NodeState, Viewer};
pub use xacro::{
    convert_xacro_if_needed_and_get_path, get_cache_dir, xacro_command_args, DescriptionSource,
};
