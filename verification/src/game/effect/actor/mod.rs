pub mod kinematics;
