use vstd::prelude::*;

verus! {

/// The number of joints from the root that inverse kinematics may move
/// unless told otherwise.
pub const DEFAULT_IK_DOF: usize = 6;

/// What the viewer is started with.
pub struct Opt {
    /// How many joints inverse kinematics may use, so that fingers are not
    /// taken as end effectors.
    pub ik_dof: usize,
    /// The robot description to show, plain or macro-form.
    pub input_urdf_or_xacro: String,
}

} // verus!
