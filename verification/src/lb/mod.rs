pub mod weighted_lb;

use vstd::prelude::*;

use crate::config::providers::error::ToModelInfoError;
use crate::config::resolver::{Base, BaseView, Variant, VariantView};

pub use weighted_lb::WeightedLoadBalancer;

verus! {

/// The member of a group that the load balancer picks.
pub enum Choice<'b> {
    Base(&'b Base),
    Variant(&'b Variant),
}

pub enum ChoiceView {
    Base(BaseView),
    Variant(VariantView),
}

impl<'b> View for Choice<'b> {
    type V = ChoiceView;

    open spec fn view(&self) -> ChoiceView {
        match self {
            Choice::Base(b) => ChoiceView::Base(b@),
            Choice::Variant(v) => ChoiceView::Variant(v@),
        }
    }
}

/// A failure of the usage statistics store.
#[derive(Debug)]
pub struct FetchError {
    pub message: String,
}

/// Why the load balancer could not pick a member.
#[derive(Debug)]
pub enum LBError {
    Other(&'static str),
    ModelInfoError(ToModelInfoError),
    FetchError(FetchError),
}

pub enum LBErrorView {
    Other(Seq<char>),
    ModelInfoError(Seq<char>),
    FetchError(Seq<char>),
}

impl View for LBError {
    type V = LBErrorView;

    open spec fn view(&self) -> LBErrorView {
        match self {
            LBError::Other(s) => LBErrorView::Other(s@),
            LBError::ModelInfoError(e) => LBErrorView::ModelInfoError(e.setting()@),
            LBError::FetchError(e) => LBErrorView::FetchError(e.message@),
        }
    }
}

/// What usage is shared between members when balancing.
pub enum BalanceLevel {
    /// Usage of the same provider and model.
    Model,
    /// Usage of any model of the same provider.
    Provider,
    /// Usage of the same provider, model and variant.
    Variant,
}

/// Whose usage counts when balancing.
pub enum BalanceScope {
    /// Usage through the group only.
    Group,
    /// All usage.
    Global,
}


impl LBError {
    /// The error's message.
    pub fn message(&self) -> (r: String)
        ensures
            r@ == match self@ {
                LBErrorView::Other(s) => "LBError:"@ + s,
                LBErrorView::ModelInfoError(s) => "ToModelInfoError: "@ + "'"@ + s
                    + "' is required but not configured"@,
                LBErrorView::FetchError(s) => "FetchError: "@ + s,
            },
    {
        match self {
            LBError::Other(s) => {
                let mut m = crate::text::string_of("LBError:");
                crate::text::push_str(&mut m, s);
                m
            },
            LBError::ModelInfoError(e) => {
                let mut m = crate::text::string_of("ToModelInfoError: ");
                let im = e.message();
                crate::text::push_str(&mut m, im.as_str());
                assert(m@ =~= "ToModelInfoError: "@ + "'"@ + e.setting()@
                    + "' is required but not configured"@);
                m
            },
            LBError::FetchError(e) => {
                let mut m = crate::text::string_of("FetchError: ");
                crate::text::push_str(&mut m, e.message.as_str());
                m
            },
        }
    }
}

} // verus!
