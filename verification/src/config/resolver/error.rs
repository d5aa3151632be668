use vstd::prelude::*;

verus! {

/// Why a model, variant or group name could not be resolved.
#[derive(Debug, PartialEq, Eq)]
pub enum ResolveError {
    NotFound(String),
    NoGroups,
    /// The group, and the member name that is not found.
    GroupMemberNotFound(String, String),
    /// The group, and why one of its members failed.
    GroupMemberError(String, Box<ResolveError>),
    NoNameToResolve,
}

pub enum ResolveErrorView {
    NotFound(Seq<char>),
    NoGroups,
    GroupMemberNotFound(Seq<char>, Seq<char>),
    GroupMemberError(Seq<char>, Box<ResolveErrorView>),
    NoNameToResolve,
}

impl View for ResolveError {
    type V = ResolveErrorView;

    open spec fn view(&self) -> ResolveErrorView
        decreases self,
    {
        match self {
            ResolveError::NotFound(n) => ResolveErrorView::NotFound(n@),
            ResolveError::NoGroups => ResolveErrorView::NoGroups,
            ResolveError::GroupMemberNotFound(g, m) => ResolveErrorView::GroupMemberNotFound(
                g@,
                m@,
            ),
            ResolveError::GroupMemberError(g, e) => ResolveErrorView::GroupMemberError(
                g@,
                Box::new((**e)@),
            ),
            ResolveError::NoNameToResolve => ResolveErrorView::NoNameToResolve,
        }
    }
}


/// The message of a resolution failure.
pub open spec fn resolve_error_message(e: ResolveErrorView) -> Seq<char>
    decreases e,
{
    match e {
        ResolveErrorView::NotFound(n) => "'"@ + n + "' not found"@,
        ResolveErrorView::NoGroups => "No groups defined in config"@,
        ResolveErrorView::GroupMemberNotFound(g, m) => "Group '"@ + g + "' references '"@ + m
            + "' which is not found"@,
        ResolveErrorView::GroupMemberError(g, inner) => "Group '"@ + g
            + "' failed to load member: "@ + resolve_error_message(*inner),
        ResolveErrorView::NoNameToResolve => "Found no name to resolve"@,
    }
}

impl ResolveError {
    /// The error's message.
    pub fn message(&self) -> (r: String)
        ensures
            r@ == resolve_error_message(self@),
        decreases self,
    {
        match self {
            ResolveError::NotFound(n) => {
                let mut m = crate::text::string_of("'");
                crate::text::push_str(&mut m, n.as_str());
                crate::text::push_str(&mut m, "' not found");
                m
            },
            ResolveError::NoGroups => crate::text::string_of("No groups defined in config"),
            ResolveError::GroupMemberNotFound(g, member) => {
                let mut m = crate::text::string_of("Group '");
                crate::text::push_str(&mut m, g.as_str());
                crate::text::push_str(&mut m, "' references '");
                crate::text::push_str(&mut m, member.as_str());
                crate::text::push_str(&mut m, "' which is not found");
                m
            },
            ResolveError::GroupMemberError(g, inner) => {
                let mut m = crate::text::string_of("Group '");
                crate::text::push_str(&mut m, g.as_str());
                crate::text::push_str(&mut m, "' failed to load member: ");
                let im = inner.message();
                crate::text::push_str(&mut m, im.as_str());
                m
            },
            ResolveError::NoNameToResolve => crate::text::string_of("Found no name to resolve"),
        }
    }
}

} // verus!
