use vstd::prelude::*;

use crate::config::resolver::base::{Base, BaseView};
use crate::config::resolver::variant::{Variant, VariantView};

verus! {

/// A member of a group and its weight.
#[derive(Debug, PartialEq, Eq)]
pub enum GroupMember {
    Base(Base, u32),
    Variant(Variant, u32),
}

pub enum GroupMemberView {
    Base(BaseView, u32),
    Variant(VariantView, u32),
}

impl View for GroupMember {
    type V = GroupMemberView;

    open spec fn view(&self) -> GroupMemberView {
        match self {
            GroupMember::Base(b, w) => GroupMemberView::Base(b@, *w),
            GroupMember::Variant(v, w) => GroupMemberView::Variant(v@, *w),
        }
    }
}

pub open spec fn member_weight(m: GroupMemberView) -> u32 {
    match m {
        GroupMemberView::Base(_, w) => w,
        GroupMemberView::Variant(_, w) => w,
    }
}

impl GroupMember {
    pub fn weight(&self) -> (w: u32)
        ensures
            w == member_weight(self@),
    {
        match self {
            GroupMember::Base(_, weight) => *weight,
            GroupMember::Variant(_, weight) => *weight,
        }
    }
}

/// A resolved group: its name and its members, in the order of the
/// configuration.
#[derive(Debug, PartialEq, Eq)]
pub struct Group {
    pub name: String,
    pub members: Vec<GroupMember>,
}

pub struct GroupView {
    pub name: Seq<char>,
    pub members: Seq<GroupMemberView>,
}

impl View for Group {
    type V = GroupView;

    open spec fn view(&self) -> GroupView {
        GroupView { name: self.name@, members: self.members@.map_values(|m: GroupMember| m@) }
    }
}

} // verus!
