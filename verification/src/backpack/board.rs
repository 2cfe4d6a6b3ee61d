//! The two backpack board revisions.
pub mod rev_a;
pub mod rev_b;
