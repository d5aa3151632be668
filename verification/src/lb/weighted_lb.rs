use vstd::prelude::*;

use crate::config::providers::error::ToModelInfoError;
use crate::config::providers::opt_text;
use crate::config::resolver::{Group, GroupMember, GroupMemberView, GroupView};
use crate::lb::{BalanceLevel, BalanceScope, Choice, ChoiceView, FetchError, LBError, LBErrorView};
use crate::text::string_of;

verus! {

/// One line of the usage statistics: what a provider and model consumed.
#[derive(Debug)]
pub struct SummaryItem {
    pub provider: String,
    pub model: String,
    pub count: u32,
    pub prompt_tokens: u32,
    pub completion_tokens: u32,
    pub tps: u32,
}

/// The filters of a usage statistics query.
#[derive(Debug)]
pub struct SummaryQuery {
    pub provider: Option<String>,
    pub model: Option<String>,
    pub variant: Option<String>,
    pub group: Option<String>,
    pub success: Option<bool>,
}

pub struct SummaryQueryView {
    pub provider: Option<Seq<char>>,
    pub model: Option<Seq<char>>,
    pub variant: Option<Seq<char>>,
    pub group: Option<Seq<char>>,
    pub success: Option<bool>,
}

impl View for SummaryQuery {
    type V = SummaryQueryView;

    open spec fn view(&self) -> SummaryQueryView {
        SummaryQueryView {
            provider: opt_text(self.provider),
            model: opt_text(self.model),
            variant: opt_text(self.variant),
            group: opt_text(self.group),
            success: self.success,
        }
    }
}

/// What the statistics store answered for one member: its error message, or
/// the prompt and completion tokens of each line.
pub enum FetchedView {
    Failed(Seq<char>),
    Items(Seq<(u32, u32)>),
}

/// What the balancer reads of a fetched summary. The provider, model, count
/// and rate of an item take no part in the choice, so they are left out.
pub open spec fn fetched_view(r: Result<Vec<SummaryItem>, FetchError>) -> FetchedView {
    match r {
        Err(e) => FetchedView::Failed(e.message@),
        Ok(items) => FetchedView::Items(
            items@.map_values(|i: SummaryItem| (i.prompt_tokens, i.completion_tokens)),
        ),
    }
}

pub open spec fn member_model_info(m: GroupMemberView) -> Result<crate::config::providers::ModelInfoView, Seq<char>> {
    match m {
        GroupMemberView::Base(b, _) => b.model_info,
        GroupMemberView::Variant(v, _) => v.model_info,
    }
}

/// The member without its weight.
pub open spec fn member_choice(m: GroupMemberView) -> ChoiceView {
    match m {
        GroupMemberView::Base(b, _) => ChoiceView::Base(b),
        GroupMemberView::Variant(v, _) => ChoiceView::Variant(v),
    }
}

/// The first member whose model is not known, and the missing setting.
pub open spec fn first_model_error(ms: Seq<GroupMemberView>) -> Option<Seq<char>>
    decreases ms.len(),
{
    if ms.len() == 0 {
        None
    } else {
        match first_model_error(ms.drop_last()) {
            Some(e) => Some(e),
            None => match member_model_info(ms.last()) {
                Err(e) => Some(e),
                Ok(_) => None,
            },
        }
    }
}

/// The query for one member's usage: the provider, the model where the level
/// is model or variant, the variant where the level is variant and the member
/// is a variant, the group where the scope is the group, and successful
/// requests only.
pub open spec fn query_spec(g: GroupView, m: GroupMemberView, scope: BalanceScope, level: BalanceLevel) -> SummaryQueryView {
    let info = member_model_info(m)->Ok_0;
    SummaryQueryView {
        provider: Some(info.provider),
        model: if level is Model || level is Variant {
            Some(info.model)
        } else {
            None
        },
        variant: if level is Variant {
            match m {
                GroupMemberView::Variant(v, _) => Some(v.name),
                _ => None,
            }
        } else {
            None
        },
        group: if scope is Group {
            Some(g.name)
        } else {
            None
        },
        success: Some(true),
    }
}

/// The first error among the store's answers, in member order: a failure,
/// or more than one line for a member.
pub open spec fn first_fetch_error(fs: Seq<FetchedView>) -> Option<LBErrorView>
    decreases fs.len(),
{
    if fs.len() == 0 {
        None
    } else {
        match first_fetch_error(fs.drop_last()) {
            Some(e) => Some(e),
            None => match fs.last() {
                FetchedView::Failed(m) => Some(LBErrorView::FetchError(m)),
                FetchedView::Items(items) => if items.len() > 1 {
                    Some(LBErrorView::Other("Unexpected size of summaries"@))
                } else {
                    None
                },
            },
        }
    }
}

/// The tokens a member has consumed: those of its one line, or none.
pub open spec fn fetched_tokens(f: FetchedView) -> int {
    match f {
        FetchedView::Items(items) => if items.len() == 0 {
            0
        } else {
            items[0].0 + items[0].1
        },
        FetchedView::Failed(_) => 0,
    }
}

pub open spec fn total_tokens(fs: Seq<FetchedView>) -> int
    decreases fs.len(),
{
    if fs.len() == 0 {
        0
    } else {
        total_tokens(fs.drop_last()) + fetched_tokens(fs.last())
    }
}

pub open spec fn total_weight(ms: Seq<GroupMemberView>) -> int
    decreases ms.len(),
{
    if ms.len() == 0 {
        0
    } else {
        total_weight(ms.drop_last()) + crate::config::resolver::group::member_weight(ms.last())
    }
}

/// The index of the last greatest value.
pub open spec fn last_argmax(s: Seq<int>) -> int
    decreases s.len(),
{
    if s.len() <= 1 {
        0
    } else {
        let j = last_argmax(s.drop_last());
        if s.last() >= s[j] {
            s.len() - 1
        } else {
            j
        }
    }
}

/// How far member `i` is below its share of the tokens, scaled by the total
/// weight times the total tokens: `w/W - t/T` times `W*T`.
pub open spec fn deficit_key(ms: Seq<GroupMemberView>, fs: Seq<FetchedView>, i: int) -> int {
    crate::config::resolver::group::member_weight(ms[i]) * total_tokens(fs) - fetched_tokens(fs[i])
        * total_weight(ms)
}

pub open spec fn deficit_keys(ms: Seq<GroupMemberView>, fs: Seq<FetchedView>) -> Seq<int> {
    Seq::new(ms.len(), |i: int| deficit_key(ms, fs, i))
}

pub open spec fn weight_keys(ms: Seq<GroupMemberView>) -> Seq<int> {
    Seq::new(ms.len(), |i: int| crate::config::resolver::group::member_weight(ms[i]) as int)
}

/// The member picked: where no tokens have been consumed, the last member of
/// greatest weight; else the last member furthest below its weighted share.
pub open spec fn choose_spec(ms: Seq<GroupMemberView>, fs: Seq<FetchedView>) -> Result<int, LBErrorView> {
    match first_model_error(ms) {
        Some(e) => Err(LBErrorView::ModelInfoError(e)),
        None => match first_fetch_error(fs) {
            Some(e) => Err(e),
            None => if ms.len() == 0 {
                Err(LBErrorView::Other("AAA"@))
            } else if total_tokens(fs) == 0 {
                Ok(last_argmax(weight_keys(ms)))
            } else {
                Ok(last_argmax(deficit_keys(ms, fs)))
            },
        },
    }
}

/// The inputs on which balancing is defined: the weights and the token
/// counts add up within 32 bits, and where tokens were consumed the weights
/// do not all vanish (unless there is only one member to compare).
pub open spec fn choose_defined(ms: Seq<GroupMemberView>, fs: Seq<FetchedView>) -> bool {
    first_model_error(ms) is None && first_fetch_error(fs) is None ==> {
        &&& total_weight(ms) <= u32::MAX
        &&& total_tokens(fs) <= u32::MAX
        &&& (forall|i: int| 0 <= i < fs.len() ==> fetched_tokens(#[trigger] fs[i]) <= u32::MAX)
        &&& (total_tokens(fs) > 0 && total_weight(ms) == 0 ==> ms.len() <= 1)
    }
}

/// Balances requests over the members of a group by their weights and the
/// tokens each has consumed.
pub struct WeightedLoadBalancer {}

} // verus!

verus! {

/// The index `last_argmax` gives holds the greatest value, and every later
/// value is smaller: ties go to the last.
pub proof fn lemma_last_argmax(s: Seq<int>)
    requires
        s.len() > 0,
    ensures
        0 <= last_argmax(s) < s.len(),
        forall|j: int| 0 <= j < s.len() ==> #[trigger] s[j] <= s[last_argmax(s)],
        forall|j: int| last_argmax(s) < j < s.len() ==> #[trigger] s[j] < s[last_argmax(s)],
    decreases s.len(),
{
    if s.len() > 1 {
        let t = s.drop_last();
        lemma_last_argmax(t);
        assert(forall|j: int| 0 <= j < t.len() ==> t[j] == s[j]);
    }
}

proof fn lemma_total_tokens_prefix(fs: Seq<FetchedView>, i: int)
    requires
        0 <= i <= fs.len(),
    ensures
        0 <= total_tokens(fs.take(i)) <= total_tokens(fs),
    decreases fs.len(),
{
    if i < fs.len() {
        assert(fs.drop_last().take(i) =~= fs.take(i));
        lemma_total_tokens_prefix(fs.drop_last(), i);
        lemma_total_tokens_prefix(fs.drop_last(), fs.len() - 1);
        assert(fs.drop_last().take(fs.len() - 1) =~= fs.drop_last());
    } else {
        assert(fs.take(i) =~= fs);
        if fs.len() > 0 {
            lemma_total_tokens_prefix(fs.drop_last(), fs.len() - 1);
            assert(fs.drop_last().take(fs.len() - 1) =~= fs.drop_last());
        }
    }
}

proof fn lemma_total_weight_prefix(ms: Seq<GroupMemberView>, i: int)
    requires
        0 <= i <= ms.len(),
    ensures
        0 <= total_weight(ms.take(i)) <= total_weight(ms),
    decreases ms.len(),
{
    if ms.len() > 0 {
        lemma_total_weight_prefix(ms.drop_last(), if i < ms.len() { i } else { ms.len() - 1 });
        lemma_total_weight_prefix(ms.drop_last(), ms.len() - 1);
        assert(ms.drop_last().take(ms.len() - 1) =~= ms.drop_last());
        if i < ms.len() {
            assert(ms.drop_last().take(i) =~= ms.take(i));
        } else {
            assert(ms.take(i) =~= ms);
        }
    } else {
        assert(ms.take(i) =~= ms);
    }
}

proof fn lemma_first_model_error_prefix(ms: Seq<GroupMemberView>, k: int)
    requires
        0 <= k <= ms.len(),
        first_model_error(ms.take(k)) is Some,
    ensures
        first_model_error(ms) == first_model_error(ms.take(k)),
    decreases ms.len(),
{
    if k < ms.len() {
        assert(ms.drop_last().take(k) =~= ms.take(k));
        lemma_first_model_error_prefix(ms.drop_last(), k);
    } else {
        assert(ms.take(k) =~= ms);
    }
}

proof fn lemma_first_fetch_error_prefix(fs: Seq<FetchedView>, k: int)
    requires
        0 <= k <= fs.len(),
        first_fetch_error(fs.take(k)) is Some,
    ensures
        first_fetch_error(fs) == first_fetch_error(fs.take(k)),
    decreases fs.len(),
{
    if k < fs.len() {
        assert(fs.drop_last().take(k) =~= fs.take(k));
        lemma_first_fetch_error_prefix(fs.drop_last(), k);
    } else {
        assert(fs.take(k) =~= fs);
    }
}

pub open spec fn choice_result_view<'b>(r: Result<Choice<'b>, LBError>, ms: Seq<GroupMemberView>, fs: Seq<FetchedView>) -> bool {
    match (r, choose_spec(ms, fs)) {
        (Ok(c), Ok(i)) => 0 <= i < ms.len() && c@ == member_choice(ms[i]),
        (Err(e), Err(ev)) => e@ == ev,
        _ => false,
    }
}

fn copy_model_error(e: &ToModelInfoError) -> (r: ToModelInfoError)
    ensures
        r.setting() == e.setting(),
{
    match e {
        ToModelInfoError::RequiredConfiguration(s) => ToModelInfoError::RequiredConfiguration(s),
    }
}

impl WeightedLoadBalancer {
    pub fn new() -> (r: Self)
        ensures
            r == (WeightedLoadBalancer {}),
    {
        WeightedLoadBalancer {}
    }

    /// The usage statistics queries for the members of `group`, one per
    /// member, in order; an error where a member's model is not known.
    pub fn summary_queries(&self, group: &Group, scope: &BalanceScope, level: &BalanceLevel) -> (r: Result<Vec<SummaryQuery>, LBError>)
        ensures
            match r {
                Ok(qs) => first_model_error(group@.members) is None && qs@.len() == group@.members.len()
                    && forall|i: int|
                    0 <= i < qs@.len() ==> #[trigger] qs@[i]@ == query_spec(
                        group@,
                        group@.members[i],
                        *scope,
                        *level,
                    ),
                Err(e) => first_model_error(group@.members) matches Some(s) && e@
                    == LBErrorView::ModelInfoError(s),
            },
    {
        let ghost ms = group@.members;
        let mut qs: Vec<SummaryQuery> = Vec::new();
        let mut i: usize = 0;
        while i < group.members.len()
            invariant
                ms == group@.members,
                i <= ms.len(),
                first_model_error(ms.take(i as int)) is None,
                qs@.len() == i,
                forall|j: int| 0 <= j < i ==> #[trigger] qs@[j]@ == query_spec(group@, ms[j], *scope, *level),
            decreases ms.len() - i,
        {
            proof {
                assert(ms.take(i + 1).drop_last() =~= ms.take(i as int));
                assert(ms.take(i + 1).last() == ms[i as int]);
            }
            let member = &group.members[i];
            let (info, variant_name) = match member {
                GroupMember::Base(base, _) => (&base.model_info, None),
                GroupMember::Variant(variant, _) => (&variant.model_info, Some(&variant.name)),
            };
            let info = match info {
                Ok(info) => info,
                Err(e) => {
                    proof {
                        lemma_first_model_error_prefix(ms, i + 1);
                    }
                    return Err(LBError::ModelInfoError(copy_model_error(e)));
                },
            };
            let q = SummaryQuery {
                provider: Some(string_of(info.provider.as_str())),
                model: match level {
                    BalanceLevel::Model | BalanceLevel::Variant => Some(string_of(info.model.as_str())),
                    BalanceLevel::Provider => None,
                },
                variant: match level {
                    BalanceLevel::Variant => match variant_name {
                        Some(n) => Some(string_of(n.as_str())),
                        None => None,
                    },
                    _ => None,
                },
                group: match scope {
                    BalanceScope::Group => Some(string_of(group.name.as_str())),
                    BalanceScope::Global => None,
                },
                success: Some(true),
            };
            qs.push(q);
            i = i + 1;
        }
        proof {
            assert(ms.take(i as int) =~= ms);
        }
        Ok(qs)
    }

    /// Picks a member of `group` given the statistics store's answer to each
    /// of the member's queries (see `summary_queries`), in member order.
    pub fn choose_member<'b>(&self, group: &'b Group, fetched: &Vec<Result<Vec<SummaryItem>, FetchError>>) -> (r: Result<Choice<'b>, LBError>)
        requires
            fetched@.len() == group@.members.len(),
            choose_defined(group@.members, fetched@.map_values(|f: Result<Vec<SummaryItem>, FetchError>| fetched_view(f))),
        ensures
            choice_result_view(r, group@.members, fetched@.map_values(|f: Result<Vec<SummaryItem>, FetchError>| fetched_view(f))),
    {
        let ghost ms = group@.members;
        let ghost fs = fetched@.map_values(|f: Result<Vec<SummaryItem>, FetchError>| fetched_view(f));
        check_models(group)?;
        check_fetched(fetched)?;
        if group.members.len() == 0 {
            return Err(LBError::Other("AAA"));
        }
        let (tokens, total_t, total_w) = token_totals(group, fetched);
        let best = pick_index(group, &tokens, total_t, total_w);
        proof {
            if total_t != 0 {
                assert(Seq::new(ms.len(), |i: int| crate::config::resolver::group::member_weight(ms[i]) * total_t - tokens@[i] * total_w) =~= deficit_keys(ms, fs));
            }
        }
        match &group.members[best] {
            GroupMember::Base(base, _) => Ok(Choice::Base(base)),
            GroupMember::Variant(variant, _) => Ok(Choice::Variant(variant)),
        }
    }
}

fn check_models(group: &Group) -> (r: Result<(), LBError>)
    ensures
        match r {
            Ok(_) => first_model_error(group@.members) is None,
            Err(e) => first_model_error(group@.members) matches Some(s) && e@ == LBErrorView::ModelInfoError(s),
        },
{
    let ghost ms = group@.members;
    let n = group.members.len();
    let mut i: usize = 0;
    while i < n
        invariant
            n == ms.len(),
            ms == group@.members,
            i <= n,
            first_model_error(ms.take(i as int)) is None,
        decreases n - i,
    {
        proof {
            assert(ms.take(i + 1).drop_last() =~= ms.take(i as int));
            assert(ms.take(i + 1).last() == ms[i as int]);
        }
        let info = match &group.members[i] {
            GroupMember::Base(base, _) => &base.model_info,
            GroupMember::Variant(variant, _) => &variant.model_info,
        };
        if let Err(e) = info {
            proof {
                lemma_first_model_error_prefix(ms, i + 1);
            }
            return Err(LBError::ModelInfoError(copy_model_error(e)));
        }
        i = i + 1;
    }
    proof {
        assert(ms.take(n as int) =~= ms);
    }
    Ok(())
}

fn check_fetched(fetched: &Vec<Result<Vec<SummaryItem>, FetchError>>) -> (r: Result<(), LBError>)
    ensures
        ({
            let fs = fetched@.map_values(|f: Result<Vec<SummaryItem>, FetchError>| fetched_view(f));
            match r {
                Ok(_) => first_fetch_error(fs) is None,
                Err(e) => first_fetch_error(fs) == Some(e@),
            }
        }),
{
    let ghost fs = fetched@.map_values(|f: Result<Vec<SummaryItem>, FetchError>| fetched_view(f));
    let n = fetched.len();
    let mut i: usize = 0;
    while i < n
        invariant
            n == fetched@.len(),
            fs == fetched@.map_values(|f: Result<Vec<SummaryItem>, FetchError>| fetched_view(f)),
            i <= n,
            first_fetch_error(fs.take(i as int)) is None,
        decreases n - i,
    {
        proof {
            assert(fs.take(i + 1).drop_last() =~= fs.take(i as int));
            assert(fs.take(i + 1).last() == fs[i as int]);
        }
        match &fetched[i] {
            Err(e) => {
                proof {
                    lemma_first_fetch_error_prefix(fs, i + 1);
                }
                return Err(LBError::FetchError(FetchError { message: string_of(e.message.as_str()) }));
            },
            Ok(items) => {
                if items.len() > 1 {
                    proof {
                        lemma_first_fetch_error_prefix(fs, i + 1);
                    }
                    return Err(LBError::Other("Unexpected size of summaries"));
                }
            },
        }
        i = i + 1;
    }
    proof {
        assert(fs.take(n as int) =~= fs);
    }
    Ok(())
}

/// Each member's tokens, the total tokens and the total weight.
fn token_totals(group: &Group, fetched: &Vec<Result<Vec<SummaryItem>, FetchError>>) -> (r: (Vec<u32>, u32, u32))
    requires
        fetched@.len() == group@.members.len(),
        first_model_error(group@.members) is None,
        first_fetch_error(fetched@.map_values(|f: Result<Vec<SummaryItem>, FetchError>| fetched_view(f))) is None,
        choose_defined(group@.members, fetched@.map_values(|f: Result<Vec<SummaryItem>, FetchError>| fetched_view(f))),
    ensures
        ({
            let fs = fetched@.map_values(|f: Result<Vec<SummaryItem>, FetchError>| fetched_view(f));
            &&& r.0@.len() == fs.len()
            &&& forall|j: int| 0 <= j < fs.len() ==> r.0@[j] as int == fetched_tokens(#[trigger] fs[j])
            &&& r.1 == total_tokens(fs)
            &&& r.2 == total_weight(group@.members)
        }),
{
    let ghost ms = group@.members;
    let ghost fs = fetched@.map_values(|f: Result<Vec<SummaryItem>, FetchError>| fetched_view(f));
    let n = group.members.len();
    let mut tokens: Vec<u32> = Vec::new();
    let mut total_t: u32 = 0;
    let mut total_w: u32 = 0;
    let mut i: usize = 0;
    while i < n
        invariant
            n == ms.len(),
            n == fetched@.len(),
            ms == group@.members,
            fs == fetched@.map_values(|f: Result<Vec<SummaryItem>, FetchError>| fetched_view(f)),
            first_model_error(ms) is None,
            first_fetch_error(fs) is None,
            choose_defined(ms, fs),
            i <= n,
            tokens@.len() == i,
            forall|j: int| 0 <= j < i ==> tokens@[j] as int == fetched_tokens(#[trigger] fs[j]),
            total_t == total_tokens(fs.take(i as int)),
            total_w == total_weight(ms.take(i as int)),
        decreases n - i,
    {
        proof {
            assert(fs.take(i + 1).drop_last() =~= fs.take(i as int));
            assert(fs.take(i + 1).last() == fs[i as int]);
            assert(ms.take(i + 1).drop_last() =~= ms.take(i as int));
            assert(ms.take(i + 1).last() == ms[i as int]);
            lemma_total_tokens_prefix(fs, i + 1);
            lemma_total_weight_prefix(ms, i + 1);
            assert(fetched_tokens(fs[i as int]) <= u32::MAX);
        }
        let t: u32 = match &fetched[i] {
            Ok(items) => if items.len() == 0 {
                0
            } else {
                items[0].prompt_tokens + items[0].completion_tokens
            },
            Err(_) => 0,
        };
        tokens.push(t);
        total_t = total_t + t;
        total_w = total_w + group.members[i].weight();
        i = i + 1;
    }
    proof {
        assert(fs.take(n as int) =~= fs);
        assert(ms.take(n as int) =~= ms);
    }
    (tokens, total_t, total_w)
}

/// `w/W - t/T` scaled by `W*T`.
fn scaled_deficit(w: u32, t: u32, total_t: u32, total_w: u32) -> (r: i128)
    ensures
        r == w * total_t - t * total_w,
{
    assert(0 <= w * total_t <= 0xffff_ffff * 0xffff_ffff) by (nonlinear_arith)
        requires
            w <= 0xffff_ffff,
            total_t <= 0xffff_ffff,
    ;
    assert(0 <= t * total_w <= 0xffff_ffff * 0xffff_ffff) by (nonlinear_arith)
        requires
            t <= 0xffff_ffff,
            total_w <= 0xffff_ffff,
    ;
    w as i128 * total_t as i128 - t as i128 * total_w as i128
}

/// The index `choose_spec` picks, for a non-empty group without errors.
fn pick_index(group: &Group, tokens: &Vec<u32>, total_t: u32, total_w: u32) -> (best: usize)
    requires
        group@.members.len() > 0,
        tokens@.len() == group@.members.len(),
    ensures
        best < group@.members.len(),
        best as int == last_argmax(
            if total_t == 0 {
                weight_keys(group@.members)
            } else {
                Seq::new(group@.members.len(), |i: int| crate::config::resolver::group::member_weight(group@.members[i]) * total_t - tokens@[i] * total_w)
            },
        ),
{
    let ghost ms = group@.members;
    let ghost keys = if total_t == 0 {
        weight_keys(ms)
    } else {
        Seq::new(ms.len(), |i: int| crate::config::resolver::group::member_weight(ms[i]) * total_t - tokens@[i] * total_w)
    };
    let n = group.members.len();
    let mut best: usize = 0;
    let mut best_key: i128 = if total_t == 0 {
        group.members[0].weight() as i128
    } else {
        scaled_deficit(group.members[0].weight(), tokens[0], total_t, total_w)
    };
    let mut i: usize = 1;
    while i < n
        invariant
            n == ms.len(),
            n == tokens@.len(),
            ms == group@.members,
            keys == (if total_t == 0 {
                weight_keys(ms)
            } else {
                Seq::new(ms.len(), |i: int| crate::config::resolver::group::member_weight(ms[i]) * total_t - tokens@[i] * total_w)
            }),
            1 <= i <= n,
            best < i,
            best as int == last_argmax(keys.take(i as int)),
            best_key == keys[best as int],
        decreases n - i,
    {
        let key: i128 = if total_t == 0 {
            group.members[i].weight() as i128
        } else {
            scaled_deficit(group.members[i].weight(), tokens[i], total_t, total_w)
        };
        proof {
            assert(keys.take(i + 1).drop_last() =~= keys.take(i as int));
            assert(keys.take(i + 1).last() == keys[i as int]);
            assert(keys.take(i as int)[best as int] == keys[best as int]);
        }
        if key >= best_key {
            best = i;
            best_key = key;
        }
        i = i + 1;
    }
    proof {
        assert(keys.take(n as int) =~= keys);
    }
    best
}

/// The member picked is one furthest below its weighted share of the tokens
/// consumed (where none have been consumed, one of greatest weight), and the
/// last such member.
pub proof fn lemma_choice_is_furthest_behind(ms: Seq<GroupMemberView>, fs: Seq<FetchedView>)
    ensures
        choose_spec(ms, fs) matches Ok(i) ==> {
            &&& 0 <= i < ms.len()
            &&& total_tokens(fs) == 0 ==> {
                &&& forall|j: int| 0 <= j < ms.len() ==> crate::config::resolver::group::member_weight(#[trigger] ms[j]) <= crate::config::resolver::group::member_weight(ms[i])
                &&& forall|j: int| i < j < ms.len() ==> crate::config::resolver::group::member_weight(#[trigger] ms[j]) < crate::config::resolver::group::member_weight(ms[i])
            }
            &&& total_tokens(fs) != 0 ==> {
                &&& forall|j: int| 0 <= j < ms.len() ==> #[trigger] deficit_key(ms, fs, j) <= deficit_key(ms, fs, i)
                &&& forall|j: int| i < j < ms.len() ==> #[trigger] deficit_key(ms, fs, j) < deficit_key(ms, fs, i)
            }
        },
{
    if choose_spec(ms, fs) is Ok {
        if total_tokens(fs) == 0 {
            let k = weight_keys(ms);
            lemma_last_argmax(k);
            assert forall|j: int| 0 <= j < ms.len() implies crate::config::resolver::group::member_weight(#[trigger] ms[j]) <= crate::config::resolver::group::member_weight(ms[last_argmax(k)]) by {
                assert(k[j] <= k[last_argmax(k)]);
            }
            assert forall|j: int| last_argmax(k) < j < ms.len() implies crate::config::resolver::group::member_weight(#[trigger] ms[j]) < crate::config::resolver::group::member_weight(ms[last_argmax(k)]) by {
                assert(k[j] < k[last_argmax(k)]);
            }
        } else {
            let k = deficit_keys(ms, fs);
            lemma_last_argmax(k);
            assert forall|j: int| 0 <= j < ms.len() implies #[trigger] deficit_key(ms, fs, j) <= deficit_key(ms, fs, last_argmax(k)) by {
                assert(k[j] <= k[last_argmax(k)]);
            }
            assert forall|j: int| last_argmax(k) < j < ms.len() implies #[trigger] deficit_key(ms, fs, j) < deficit_key(ms, fs, last_argmax(k)) by {
                assert(k[j] < k[last_argmax(k)]);
            }
        }
    }
}


proof fn lemma_total_tokens_at_least(fs: Seq<FetchedView>, j: int)
    requires
        0 <= j < fs.len(),
    ensures
        total_tokens(fs) >= fetched_tokens(fs[j]),
        fetched_tokens(fs[j]) >= 0,
    decreases fs.len(),
{
    let t = fs.drop_last();
    if j < fs.len() - 1 {
        assert(t[j] == fs[j]);
        lemma_total_tokens_at_least(t, j);
        lemma_total_tokens_nonneg(t);
        assert(fetched_tokens(fs.last()) >= 0);
    } else {
        lemma_total_tokens_nonneg(t);
    }
}

proof fn lemma_total_tokens_nonneg(fs: Seq<FetchedView>)
    ensures
        total_tokens(fs) >= 0,
    decreases fs.len(),
{
    if fs.len() > 0 {
        lemma_total_tokens_nonneg(fs.drop_last());
    }
}

proof fn lemma_total_weight_at_least(ms: Seq<GroupMemberView>, j: int)
    requires
        0 <= j < ms.len(),
    ensures
        total_weight(ms) >= crate::config::resolver::group::member_weight(ms[j]),
    decreases ms.len(),
{
    let t = ms.drop_last();
    lemma_total_weight_nonneg(t);
    if j < ms.len() - 1 {
        assert(t[j] == ms[j]);
        lemma_total_weight_at_least(t, j);
    }
}

proof fn lemma_total_weight_nonneg(ms: Seq<GroupMemberView>)
    ensures
        total_weight(ms) >= 0,
    decreases ms.len(),
{
    if ms.len() > 0 {
        lemma_total_weight_nonneg(ms.drop_last());
    }
}

/// Among members of equal weight that each report one usage line, where
/// some tokens have been used, the member picked is one that has consumed
/// the fewest tokens, counting its prompt tokens and its completion tokens
/// together, and the last of those.
pub proof fn lemma_equal_weights_pick_least_used(ms: Seq<GroupMemberView>, fs: Seq<FetchedView>)
    requires
        first_model_error(ms) is None,
        ms.len() == fs.len(),
        ms.len() > 0,
        crate::config::resolver::group::member_weight(ms[0]) > 0,
        forall|j: int|
            0 <= j < ms.len() ==> #[trigger] crate::config::resolver::group::member_weight(ms[j])
                == crate::config::resolver::group::member_weight(ms[0]),
        forall|j: int| 0 <= j < fs.len() ==> (#[trigger] fs[j] matches FetchedView::Items(s) && s.len() == 1),
        exists|j: int| 0 <= j < fs.len() && #[trigger] fs[j]->Items_0[0].0 + fs[j]->Items_0[0].1 > 0,
    ensures
        choose_spec(ms, fs) matches Ok(i) && 0 <= i < ms.len() && (forall|j: int|
            0 <= j < ms.len() ==> fs[i]->Items_0[0].0 + fs[i]->Items_0[0].1 <= #[trigger] fs[j]->Items_0[0].0
                + fs[j]->Items_0[0].1) && (forall|j: int|
            i < j < ms.len() ==> fs[i]->Items_0[0].0 + fs[i]->Items_0[0].1 < #[trigger] fs[j]->Items_0[0].0
                + fs[j]->Items_0[0].1),
{
    let w = crate::config::resolver::group::member_weight(ms[0]) as int;
    // No usage line failed or came twice.
    assert(first_fetch_error(fs) is None) by {
        lemma_no_fetch_error(fs);
    }
    let j0 = choose|j: int| 0 <= j < fs.len() && #[trigger] fs[j]->Items_0[0].0 + fs[j]->Items_0[0].1 > 0;
    lemma_total_tokens_at_least(fs, j0);
    assert(fetched_tokens(fs[j0]) == fs[j0]->Items_0[0].0 + fs[j0]->Items_0[0].1);
    let tt = total_tokens(fs);
    assert(tt > 0);
    lemma_total_weight_at_least(ms, 0);
    let tw = total_weight(ms);
    assert(tw > 0);
    lemma_choice_is_furthest_behind(ms, fs);
    let i = choose_spec(ms, fs)->Ok_0;
    assert forall|j: int|
        0 <= j < ms.len() implies fs[i]->Items_0[0].0 + fs[i]->Items_0[0].1 <= #[trigger] fs[j]->Items_0[0].0
            + fs[j]->Items_0[0].1 by {
        assert(deficit_key(ms, fs, j) <= deficit_key(ms, fs, i));
        let fi = fetched_tokens(fs[i]);
        let fj = fetched_tokens(fs[j]);
        assert(crate::config::resolver::group::member_weight(ms[j]) as int == w);
        assert(crate::config::resolver::group::member_weight(ms[i]) as int == w);
        assert(w * tt - fj * tw <= w * tt - fi * tw);
        assert(fi <= fj) by (nonlinear_arith)
            requires
                fi * tw <= fj * tw,
                tw > 0,
        ;
    }
    assert forall|j: int|
        i < j < ms.len() implies fs[i]->Items_0[0].0 + fs[i]->Items_0[0].1 < #[trigger] fs[j]->Items_0[0].0
            + fs[j]->Items_0[0].1 by {
        assert(deficit_key(ms, fs, j) < deficit_key(ms, fs, i));
        let fi = fetched_tokens(fs[i]);
        let fj = fetched_tokens(fs[j]);
        assert(crate::config::resolver::group::member_weight(ms[j]) as int == w);
        assert(crate::config::resolver::group::member_weight(ms[i]) as int == w);
        assert(w * tt - fj * tw < w * tt - fi * tw);
        assert(fi < fj) by (nonlinear_arith)
            requires
                fi * tw < fj * tw,
                tw > 0,
        ;
    }
}

proof fn lemma_no_fetch_error(fs: Seq<FetchedView>)
    requires
        forall|j: int| 0 <= j < fs.len() ==> (#[trigger] fs[j] matches FetchedView::Items(s) && s.len() == 1),
    ensures
        first_fetch_error(fs) is None,
    decreases fs.len(),
{
    if fs.len() > 0 {
        let t = fs.drop_last();
        assert forall|j: int| 0 <= j < t.len() implies (#[trigger] t[j] matches FetchedView::Items(s) && s.len() == 1) by {
            assert(t[j] == fs[j]);
        }
        lemma_no_fetch_error(t);
        assert(fs.last() == fs[fs.len() - 1]);
    }
}

/// The tokens that the balancer counts for a member whose store answered
/// with usage lines are the prompt tokens and the completion tokens of its
/// line, together.
pub proof fn lemma_usage_counts_prompt_and_completion(items: Vec<SummaryItem>)
    requires
        items@.len() == 1,
    ensures
        fetched_tokens(fetched_view(Ok(items))) == items@[0].prompt_tokens + items@[0].completion_tokens,
{
}

} // verus!
