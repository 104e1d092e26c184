use vstd::prelude::*;

verus! {

/// The netlink error number for "no such entry".
pub const ENOENT: i32 = 2;

/// An attribute that a control reply must carry.
#[derive(Clone, Copy, Debug, PartialEq, Eq, Structural)]
pub enum RequiredAttr {
    /// The numeric family id (`CTRL_ATTR_FAMILY_ID`).
    FamilyId,
}

impl RequiredAttr {
    /// The attribute's name in the kernel's control protocol.
    pub fn name(&self) -> (r: &'static str)
        ensures
            r@ == "CTRL_ATTR_FAMILY_ID"@,
    {
        match self {
            RequiredAttr::FamilyId => "CTRL_ATTR_FAMILY_ID",
        }
    }
}

/// Why a resolution failed.
#[derive(Clone, Copy, Debug, PartialEq, Eq, Structural)]
pub enum GenetlinkError {
    /// The kernel answered with a netlink error message; holds its raw code
    /// (a negated errno, or 0 for an acknowledgement).
    NetlinkError(i32),
    /// The reply stream ended without a usable answer.
    NoMessageReceived,
    /// A reply was present but lacked a required attribute.
    AttributeNotFound(RequiredAttr),
}

impl GenetlinkError {
    /// Whether the kernel reported that the family does not exist.
    pub fn is_not_found(&self) -> (r: bool)
        ensures
            r == (*self == GenetlinkError::NetlinkError((-ENOENT) as i32)),
    {
        match self {
            GenetlinkError::NetlinkError(code) => *code == -ENOENT,
            _ => false,
        }
    }
}

} // verus!
