use vstd::prelude::*;

use crate::text::{chars_of, push_char, push_str, string_of};

verus! {

/// Where the extractor stands in the text it has been fed so far.
#[derive(Debug, Clone, PartialEq, Eq)]
pub enum ParserState {
    OutsideCode,
    /// Accumulating backticks that may open a fence.
    PossibleFenceStart(String),
    /// After the opening backticks, collecting the language identifier.
    InFenceHeader(String),
    /// Inside a code block, collecting its content.
    InCode(String),
    /// Backticks that may close the fence, and the code collected so far.
    PossibleFenceEnd(String, String),
}

/// The mathematical form of a `ParserState`.
pub enum StateView {
    OutsideCode,
    PossibleFenceStart(Seq<char>),
    InFenceHeader(Seq<char>),
    InCode(Seq<char>),
    PossibleFenceEnd(Seq<char>, Seq<char>),
}

impl View for ParserState {
    type V = StateView;

    open spec fn view(&self) -> StateView {
        match self {
            ParserState::OutsideCode => StateView::OutsideCode,
            ParserState::PossibleFenceStart(b) => StateView::PossibleFenceStart(b@),
            ParserState::InFenceHeader(l) => StateView::InFenceHeader(l@),
            ParserState::InCode(c) => StateView::InCode(c@),
            ParserState::PossibleFenceEnd(b, c) => StateView::PossibleFenceEnd(b@, c@),
        }
    }
}

/// What one character does: the next state, the characters handed out as
/// code, and the code block that the character closes, if it closes one.
pub open spec fn step(s: StateView, ch: char) -> (StateView, Seq<char>, Option<Seq<char>>) {
    let none = Seq::<char>::empty();
    match s {
        StateView::OutsideCode => {
            if ch == '`' {
                (StateView::PossibleFenceStart(seq!['`']), none, None)
            } else {
                (StateView::OutsideCode, none, None)
            }
        },
        StateView::PossibleFenceStart(b) => {
            if ch == '`' {
                if b.push('`').len() == 3 {
                    (StateView::InFenceHeader(none), none, None)
                } else {
                    (StateView::PossibleFenceStart(b.push('`')), none, None)
                }
            } else {
                (StateView::OutsideCode, none, None)
            }
        },
        StateView::InFenceHeader(lang) => {
            if ch == '\n' {
                (StateView::InCode(none), none, None)
            } else {
                (StateView::InFenceHeader(lang.push(ch)), none, None)
            }
        },
        StateView::InCode(code) => {
            if ch == '`' {
                (StateView::PossibleFenceEnd(seq!['`'], code), none, None)
            } else {
                (StateView::InCode(code.push(ch)), seq![ch], None)
            }
        },
        StateView::PossibleFenceEnd(b, code) => {
            if ch == '`' {
                if b.push('`').len() == 3 {
                    (StateView::OutsideCode, none, Some(code))
                } else {
                    (StateView::PossibleFenceEnd(b.push('`'), code), none, None)
                }
            } else {
                (StateView::InCode(code + b.push(ch)), b.push(ch), None)
            }
        },
    }
}

/// What a run of characters does, one after the other: the final state,
/// everything handed out as code, and the code blocks closed on the way.
pub open spec fn run(s: StateView, cs: Seq<char>) -> (StateView, Seq<char>, Seq<Seq<char>>)
    decreases cs.len(),
{
    if cs.len() == 0 {
        (s, Seq::empty(), Seq::empty())
    } else {
        let r = run(s, cs.drop_last());
        let t = step(r.0, cs.last());
        (t.0, r.1 + t.1, match t.2 {
            Some(b) => r.2.push(b),
            None => r.2,
        })
    }
}

/// The code blocks one after the other.
pub open spec fn concat_blocks(bs: Seq<Seq<char>>) -> Seq<char>
    decreases bs.len(),
{
    if bs.len() == 0 {
        Seq::empty()
    } else {
        concat_blocks(bs.drop_last()) + bs.last()
    }
}

/// The code of the block that is still open, as far as it is known to be code.
pub open spec fn pending_code(s: StateView) -> Seq<char> {
    match s {
        StateView::InCode(c) => c,
        StateView::PossibleFenceEnd(_, c) => c,
        _ => Seq::empty(),
    }
}

/// Whether the state is one in which `feed` reports that the caller may go on.
pub open spec fn settled(s: StateView) -> bool {
    s is InCode || s is OutsideCode
}

/// Pulls the content of fenced code blocks out of text that arrives in pieces.
pub struct StreamingCodeExtractor {
    state: ParserState,
    completed_blocks: Vec<String>,
}

impl StreamingCodeExtractor {
    pub closed spec fn state_view(&self) -> StateView {
        self.state@
    }

    pub closed spec fn blocks_view(&self) -> Seq<Seq<char>> {
        self.completed_blocks@.map_values(|b: String| b@)
    }

    pub fn new() -> (r: Self)
        ensures
            r.state_view() == StateView::OutsideCode,
            r.blocks_view() == Seq::<Seq<char>>::empty(),
    {
        Self { state: ParserState::OutsideCode, completed_blocks: Vec::new() }
    }

    /// The code blocks closed so far.
    pub fn completed_blocks(&self) -> (r: Vec<String>)
        ensures
            r@.map_values(|b: String| b@) == self.blocks_view(),
    {
        let mut r: Vec<String> = Vec::new();
        let mut i: usize = 0;
        while i < self.completed_blocks.len()
            invariant
                i <= self.completed_blocks@.len(),
                r@.map_values(|b: String| b@) == self.blocks_view().take(i as int),
            decreases self.completed_blocks@.len() - i,
        {
            r.push(self.completed_blocks[i].clone());
            proof {
                assert(r@.map_values(|b: String| b@) =~= self.blocks_view().take(i + 1)) by {
                    assert(r@.drop_last().map_values(|b: String| b@) =~= self.blocks_view().take(i as int));
                }
            }
            i = i + 1;
        }
        proof {
            assert(self.blocks_view().take(i as int) =~= self.blocks_view());
        }
        r
    }

    /// Feeds one piece of text. The code it reveals is appended to `buffer`;
    /// the result tells whether the extractor stands outside any fence or
    /// inside a code block (rather than in the middle of a fence).
    pub fn feed(&mut self, token: &str, buffer: &mut String) -> (settled_now: bool)
        ensures
            final(self).state_view() == run(old(self).state_view(), token@).0,
            final(buffer)@ == old(buffer)@ + run(old(self).state_view(), token@).1,
            final(self).blocks_view() == old(self).blocks_view() + run(old(self).state_view(), token@).2,
            settled_now == settled(run(old(self).state_view(), token@).0),
    {
        let cs = chars_of(token);
        let ghost s0 = self.state@;
        let ghost b0 = self.blocks_view();
        let ghost buf0 = buffer@;
        let mut i: usize = 0;
        while i < cs.len()
            invariant
                i <= cs@.len(),
                cs@ == token@,
                self.state@ == run(s0, cs@.take(i as int)).0,
                buffer@ == buf0 + run(s0, cs@.take(i as int)).1,
                self.blocks_view() == b0 + run(s0, cs@.take(i as int)).2,
            decreases cs@.len() - i,
        {
            proof {
                assert(cs@.take(i + 1).drop_last() =~= cs@.take(i as int));
                assert(cs@.take(i + 1).last() == cs@[i as int]);
            }
            self.process_char(cs[i], buffer);
            proof {
                assert(buffer@ =~= buf0 + run(s0, cs@.take(i + 1)).1);
                assert(self.blocks_view() =~= b0 + run(s0, cs@.take(i + 1)).2);
            }
            i = i + 1;
        }
        proof {
            assert(cs@.take(cs@.len() as int) =~= cs@);
        }
        match self.state {
            ParserState::InCode(_) | ParserState::OutsideCode => true,
            _ => false,
        }
    }

    fn process_char(&mut self, ch: char, buffer: &mut String)
        ensures
            final(self).state_view() == step(old(self).state_view(), ch).0,
            final(buffer)@ == old(buffer)@ + step(old(self).state_view(), ch).1,
            final(self).blocks_view() == match step(old(self).state_view(), ch).2 {
                Some(b) => old(self).blocks_view().push(b),
                None => old(self).blocks_view(),
            },
    {
        let ghost s0 = self.state@;
        proof {
            reveal_strlit("`");
            assert("`"@ =~= seq!['`']);
        }
        let next = match &self.state {
            ParserState::OutsideCode => {
                if ch == '`' {
                    ParserState::PossibleFenceStart(string_of("`"))
                } else {
                    ParserState::OutsideCode
                }
            },
            ParserState::PossibleFenceStart(backticks) => {
                if ch == '`' {
                    let mut new_backticks = backticks.clone();
                    push_char(&mut new_backticks, '`');
                    if new_backticks.as_str().unicode_len() == 3 {
                        ParserState::InFenceHeader(String::new())
                    } else {
                        ParserState::PossibleFenceStart(new_backticks)
                    }
                } else {
                    ParserState::OutsideCode
                }
            },
            ParserState::InFenceHeader(lang) => {
                if ch == '\n' {
                    ParserState::InCode(String::new())
                } else {
                    let mut new_lang = lang.clone();
                    push_char(&mut new_lang, ch);
                    ParserState::InFenceHeader(new_lang)
                }
            },
            ParserState::InCode(code) => {
                if ch == '`' {
                    ParserState::PossibleFenceEnd(string_of("`"), code.clone())
                } else {
                    let mut new_code = code.clone();
                    push_char(&mut new_code, ch);
                    push_char(buffer, ch);
                    ParserState::InCode(new_code)
                }
            },
            ParserState::PossibleFenceEnd(backticks, code) => {
                if ch == '`' {
                    let mut new_backticks = backticks.clone();
                    push_char(&mut new_backticks, '`');
                    if new_backticks.as_str().unicode_len() == 3 {
                        self.completed_blocks.push(code.clone());
                        ParserState::OutsideCode
                    } else {
                        ParserState::PossibleFenceEnd(new_backticks, code.clone())
                    }
                } else {
                    let mut new_code = code.clone();
                    push_str(&mut new_code, backticks.as_str());
                    push_char(&mut new_code, ch);
                    push_str(buffer, backticks.as_str());
                    push_char(buffer, ch);
                    ParserState::InCode(new_code)
                }
            },
        };
        self.state = next;
        proof {
            assert(self.state@ =~= step(s0, ch).0);
            assert(buffer@ =~= old(buffer)@ + step(s0, ch).1);
            assert(self.blocks_view() =~= match step(s0, ch).2 {
                Some(b) => old(self).blocks_view().push(b),
                None => old(self).blocks_view(),
            });
        }
    }
}

/// Feeding text in two pieces has the same effect as feeding it at once:
/// what the extractor reports does not depend on where a stream is cut.
pub proof fn lemma_run_concat(s: StateView, a: Seq<char>, b: Seq<char>)
    ensures
        run(s, a + b) == ({
            let ra = run(s, a);
            let rb = run(ra.0, b);
            (rb.0, ra.1 + rb.1, ra.2 + rb.2)
        }),
    decreases b.len(),
{
    if b.len() == 0 {
        assert(a + b =~= a);
        let ra = run(s, a);
        assert(ra.1 + Seq::<char>::empty() =~= ra.1);
        assert(ra.2 + Seq::<Seq<char>>::empty() =~= ra.2);
    } else {
        assert((a + b).drop_last() =~= a + b.drop_last());
        assert((a + b).last() == b.last());
        lemma_run_concat(s, a, b.drop_last());
        let ra = run(s, a);
        let rb1 = run(ra.0, b.drop_last());
        let t = step(rb1.0, b.last());
        assert(ra.1 + rb1.1 + t.1 =~= ra.1 + (rb1.1 + t.1));
        match t.2 {
            Some(x) => {
                assert((ra.2 + rb1.2).push(x) =~= ra.2 + rb1.2.push(x));
            },
            None => {},
        }
    }
}

/// Starting outside any fence, everything handed out as code is exactly the
/// content of the closed blocks, followed by the code of the block still open.
pub proof fn lemma_emitted_is_blocks_then_pending(cs: Seq<char>)
    ensures
        run(StateView::OutsideCode, cs).1 == concat_blocks(run(StateView::OutsideCode, cs).2)
            + pending_code(run(StateView::OutsideCode, cs).0),
    decreases cs.len(),
{
    let r = run(StateView::OutsideCode, cs);
    if cs.len() == 0 {
        assert(r.1 =~= concat_blocks(r.2) + pending_code(r.0));
    } else {
        lemma_emitted_is_blocks_then_pending(cs.drop_last());
        let p = run(StateView::OutsideCode, cs.drop_last());
        let t = step(p.0, cs.last());
        match t.2 {
            Some(x) => {
                assert(r.2.drop_last() =~= p.2);
            },
            None => {},
        }
        assert(r.1 =~= concat_blocks(r.2) + pending_code(r.0));
    }
}

} // verus!

verus! {

/// Three backticks stand at `i` in `s`.
pub open spec fn fence_at(s: Seq<char>, i: int) -> bool {
    0 <= i && i + 3 <= s.len() && s[i] == '`' && s[i + 1] == '`' && s[i + 2] == '`'
}

/// The first position at or after `i` where three backticks stand.
pub open spec fn next_fence(s: Seq<char>, i: int) -> Option<int>
    decreases s.len() - i,
{
    if i < 0 || i + 3 > s.len() {
        None
    } else if fence_at(s, i) {
        Some(i)
    } else {
        next_fence(s, i + 1)
    }
}

/// The first line feed at or after `i`.
pub open spec fn next_newline(s: Seq<char>, i: int) -> Option<int>
    decreases s.len() - i,
{
    if i < 0 || i >= s.len() {
        None
    } else if s[i] == '\n' {
        Some(i)
    } else {
        next_newline(s, i + 1)
    }
}

/// The number of backticks that `s` ends with.
pub open spec fn tail_ticks(s: Seq<char>) -> nat
    decreases s.len(),
{
    if s.len() > 0 && s.last() == '`' {
        tail_ticks(s.drop_last()) + 1
    } else {
        0
    }
}

/// `s` without the backticks that it ends with.
pub open spec fn without_tail_ticks(s: Seq<char>) -> Seq<char> {
    s.take(s.len() - tail_ticks(s))
}

pub open spec fn ticks(n: nat) -> Seq<char> {
    Seq::new(n, |_i: int| '`')
}

pub proof fn lemma_next_fence(s: Seq<char>, i: int)
    requires
        0 <= i,
    ensures
        match next_fence(s, i) {
            Some(k) => i <= k && fence_at(s, k) && forall|j: int| i <= j < k ==> !fence_at(s, j),
            None => forall|j: int| i <= j ==> !fence_at(s, j),
        },
    decreases s.len() - i,
{
    if !(i + 3 > s.len()) && !fence_at(s, i) {
        lemma_next_fence(s, i + 1);
    }
}

pub proof fn lemma_next_newline(s: Seq<char>, i: int)
    requires
        0 <= i,
    ensures
        match next_newline(s, i) {
            Some(k) => i <= k < s.len() && s[k] == '\n' && forall|j: int| i <= j < k ==> s[j] != '\n',
            None => forall|j: int| i <= j < s.len() ==> s[j] != '\n',
        },
    decreases s.len() - i,
{
    if i < s.len() && s[i] != '\n' {
        lemma_next_newline(s, i + 1);
    }
}

proof fn lemma_tail_ticks(s: Seq<char>)
    ensures
        tail_ticks(s) <= s.len(),
        forall|j: int| s.len() - tail_ticks(s) <= j < s.len() ==> #[trigger] s[j] == '`',
        tail_ticks(s) < s.len() ==> s[s.len() - 1 - tail_ticks(s)] != '`',
        s =~= without_tail_ticks(s) + ticks(tail_ticks(s)),
    decreases s.len(),
{
    if s.len() > 0 && s.last() == '`' {
        let t = s.drop_last();
        lemma_tail_ticks(t);
        assert forall|j: int| s.len() - tail_ticks(s) <= j < s.len() implies #[trigger] s[j]
            == '`' by {
            if j < s.len() - 1 {
                assert(s[j] == t[j]);
            }
        }
        if tail_ticks(s) < s.len() {
            assert(s[s.len() - 1 - tail_ticks(s)] == t[t.len() - 1 - tail_ticks(t)]);
        }
        assert(without_tail_ticks(s) =~= without_tail_ticks(t));
        assert(ticks(tail_ticks(s)) =~= ticks(tail_ticks(t)).push('`'));
    } else {
        assert(ticks(0) =~= Seq::<char>::empty());
    }
}

/// Where no three backticks stand, the tail of backticks is at most two long.
proof fn lemma_short_tail(s: Seq<char>)
    requires
        forall|j: int| !fence_at(s, j),
    ensures
        tail_ticks(s) <= 2,
{
    lemma_tail_ticks(s);
    if tail_ticks(s) >= 3 {
        assert(fence_at(s, s.len() - 3));
    }
}

/// The state after a run of backticks outside a fence, or after code
/// followed by backticks that may close it.
pub open spec fn outside_after(t: nat) -> StateView {
    if t == 0 {
        StateView::OutsideCode
    } else {
        StateView::PossibleFenceStart(ticks(t))
    }
}

pub open spec fn in_code_after(c: Seq<char>, t: nat) -> StateView {
    if t == 0 {
        StateView::InCode(c)
    } else {
        StateView::PossibleFenceEnd(ticks(t), c)
    }
}

/// Outside a fence, text that holds no three backticks reveals nothing.
proof fn lemma_run_outside(x: Seq<char>)
    requires
        forall|j: int| !fence_at(x, j),
    ensures
        run(StateView::OutsideCode, x) == (
        outside_after(tail_ticks(x)),
        Seq::<char>::empty(),
        Seq::<Seq<char>>::empty(),
        ),
    decreases x.len(),
{
    if x.len() > 0 {
        let y = x.drop_last();
        assert forall|j: int| !fence_at(y, j) by {
            if fence_at(y, j) {
                assert(fence_at(x, j));
            }
        }
        lemma_run_outside(y);
        lemma_short_tail(x);
        assert(Seq::<char>::empty() + Seq::<char>::empty() =~= Seq::<char>::empty());
        if x.last() == '`' {
            assert(ticks(tail_ticks(y)).push('`') =~= ticks(tail_ticks(x)));
            if tail_ticks(y) == 0 {
                assert(seq!['`'] =~= ticks(1));
            }
        }
    }
}

/// In a code block, text that holds no three backticks is code, but for the
/// backticks it ends with, which may close the block.
proof fn lemma_run_in_code(c: Seq<char>, y: Seq<char>)
    requires
        forall|j: int| !fence_at(y, j),
    ensures
        run(StateView::InCode(c), y) == (
        in_code_after(c + without_tail_ticks(y), tail_ticks(y)),
        without_tail_ticks(y),
        Seq::<Seq<char>>::empty(),
        ),
    decreases y.len(),
{
    if y.len() == 0 {
        assert(c + without_tail_ticks(y) =~= c);
    } else {
        let z = y.drop_last();
        assert forall|j: int| !fence_at(z, j) by {
            if fence_at(z, j) {
                assert(fence_at(y, j));
            }
        }
        lemma_run_in_code(c, z);
        lemma_short_tail(y);
        lemma_tail_ticks(y);
        lemma_tail_ticks(z);
        let ch = y.last();
        let wz = without_tail_ticks(z);
        if ch == '`' {
            assert(without_tail_ticks(y) =~= wz);
            assert(ticks(tail_ticks(z)).push('`') =~= ticks(tail_ticks(y)));
            if tail_ticks(z) == 0 {
                assert(seq!['`'] =~= ticks(1));
            }
            assert(wz + Seq::<char>::empty() =~= wz);
        } else {
            assert(without_tail_ticks(y) =~= y);
            assert(z =~= wz + ticks(tail_ticks(z)));
            if tail_ticks(z) == 0 {
                assert(wz =~= z);
                assert(wz + seq![ch] =~= y);
                assert((c + wz).push(ch) =~= c + y);
            } else {
                assert(wz + ticks(tail_ticks(z)).push(ch) =~= y);
                assert(c + wz + ticks(tail_ticks(z)).push(ch) =~= c + y);
            }
        }
    }
}

/// A fence header that holds no line feed is only read.
proof fn lemma_run_header(l: Seq<char>, z: Seq<char>)
    requires
        forall|j: int| 0 <= j < z.len() ==> z[j] != '\n',
    ensures
        run(StateView::InFenceHeader(l), z) == (
        StateView::InFenceHeader(l + z),
        Seq::<char>::empty(),
        Seq::<Seq<char>>::empty(),
        ),
    decreases z.len(),
{
    if z.len() == 0 {
        assert(l + z =~= l);
    } else {
        lemma_run_header(l, z.drop_last());
        assert((l + z.drop_last()).push(z.last()) =~= l + z);
        assert(Seq::<char>::empty() + Seq::<char>::empty() =~= Seq::<char>::empty());
    }
}

proof fn lemma_run_fence_open()
    ensures
        run(StateView::OutsideCode, ticks(3)) == (
        StateView::InFenceHeader(Seq::<char>::empty()),
        Seq::<char>::empty(),
        Seq::<Seq<char>>::empty(),
        ),
{
    let e = Seq::<char>::empty();
    let s = StateView::OutsideCode;
    assert(e + e =~= e);
    assert(run(s, ticks(1)) == (StateView::PossibleFenceStart(seq!['`']), e, Seq::<Seq<char>>::empty()))
        by {
        assert(ticks(1).drop_last() =~= e);
        assert(ticks(1).last() == '`');
        assert(run(s, ticks(1).drop_last()) == (s, e, Seq::<Seq<char>>::empty()));
    }
    assert(seq!['`'].push('`') =~= ticks(2));
    assert(run(s, ticks(2)) == (StateView::PossibleFenceStart(ticks(2)), e, Seq::<Seq<char>>::empty()))
        by {
        assert(ticks(2).drop_last() =~= ticks(1));
    }
    assert(ticks(3).drop_last() =~= ticks(2));
}

proof fn lemma_run_fence_close(c: Seq<char>)
    ensures
        run(StateView::InCode(c), ticks(3)) == (
        StateView::OutsideCode,
        Seq::<char>::empty(),
        seq![c],
        ),
{
    let e = Seq::<char>::empty();
    let s = StateView::InCode(c);
    assert(e + e =~= e);
    assert(run(s, ticks(1)) == (StateView::PossibleFenceEnd(seq!['`'], c), e, Seq::<Seq<char>>::empty()))
        by {
        assert(ticks(1).drop_last() =~= e);
        assert(ticks(1).last() == '`');
        assert(run(s, ticks(1).drop_last()) == (s, e, Seq::<Seq<char>>::empty()));
    }
    assert(seq!['`'].push('`') =~= ticks(2));
    assert(run(s, ticks(2)) == (StateView::PossibleFenceEnd(ticks(2), c), e, Seq::<Seq<char>>::empty()))
        by {
        assert(ticks(2).drop_last() =~= ticks(1));
    }
    assert(ticks(3).drop_last() =~= ticks(2));
    assert(Seq::<Seq<char>>::empty().push(c) =~= seq![c]);
}

proof fn lemma_run_newline(l: Seq<char>)
    ensures
        run(StateView::InFenceHeader(l), seq!['\n']) == (
        StateView::InCode(Seq::<char>::empty()),
        Seq::<char>::empty(),
        Seq::<Seq<char>>::empty(),
        ),
{
    let e = Seq::<char>::empty();
    assert(seq!['\n'].drop_last() =~= e);
    assert(run(StateView::InFenceHeader(l), e) == (StateView::InFenceHeader(l), e, Seq::<Seq<char>>::empty()));
    assert(e + e =~= e);
}


/// Reading `s` from its start, outside any fence: the bodies of the fenced
/// blocks that close, the code of a block left open, as far as it is known
/// to be code, and whether the text ends outside any fence or inside a code
/// block rather than in the middle of a fence. A fence opens at the first
/// three backticks, its header runs to the next line feed, and its body runs
/// from there to the next three backticks, which close it; reading goes on
/// after them. Backticks at the end of the text may begin a fence: they are
/// no code yet.
pub open spec fn fenced_code(s: Seq<char>) -> (Seq<Seq<char>>, Seq<char>, bool)
    decreases s.len(),
{
    match next_fence(s, 0) {
        None => (Seq::empty(), Seq::empty(), tail_ticks(s) == 0),
        Some(i) => {
            let a = s.skip(i + 3);
            match next_newline(a, 0) {
                None => (Seq::empty(), Seq::empty(), false),
                Some(j) => {
                    let body = a.skip(j + 1);
                    match next_fence(body, 0) {
                        None => (Seq::empty(), without_tail_ticks(body), tail_ticks(body) == 0),
                        Some(k) => {
                            proof {
                                lemma_next_fence(s, 0);
                                lemma_next_newline(a, 0);
                                lemma_next_fence(body, 0);
                            }
                            let rest = fenced_code(body.skip(k + 3));
                            (seq![body.take(k)] + rest.0, rest.1, rest.2)
                        }
                    }
                }
            }
        }
    }
}

proof fn lemma_fences(s: Seq<char>)
    ensures
        run(StateView::OutsideCode, s).2 == fenced_code(s).0,
        pending_code(run(StateView::OutsideCode, s).0) == fenced_code(s).1,
        settled(run(StateView::OutsideCode, s).0) == fenced_code(s).2,
    decreases s.len(),
{
    let o = StateView::OutsideCode;
    let e = Seq::<char>::empty();
    let eb = Seq::<Seq<char>>::empty();
    lemma_next_fence(s, 0);
    match next_fence(s, 0) {
        None => {
            lemma_run_outside(s);
        },
        Some(i) => {
            let p = s.take(i);
            let f = s.subrange(i, i + 3);
            let a = s.skip(i + 3);
            assert(f =~= ticks(3));
            assert(s =~= (p + f) + a);
            assert forall|j: int| !fence_at(p, j) by {
                if fence_at(p, j) {
                    assert(fence_at(s, j));
                }
            }
            lemma_tail_ticks(p);
            if tail_ticks(p) > 0 {
                assert(p[i - 1] == '`');
                assert(fence_at(s, i - 1));
            }
            lemma_run_outside(p);
            lemma_run_fence_open();
            lemma_run_concat(o, p, f);
            lemma_run_concat(o, p + f, a);
            assert(e + e =~= e);
            assert(eb + eb =~= eb);
            let h = StateView::InFenceHeader(e);
            assert(run(o, p + f) == (h, e, eb));
            lemma_next_newline(a, 0);
            match next_newline(a, 0) {
                None => {
                    lemma_run_header(e, a);
                },
                Some(j) => {
                    let hd = a.take(j);
                    let nl = seq!['\n'];
                    let body = a.skip(j + 1);
                    assert(a =~= (hd + nl) + body);
                    lemma_run_header(e, hd);
                    lemma_run_newline(e + hd);
                    lemma_run_concat(h, hd, nl);
                    lemma_run_concat(h, hd + nl, body);
                    let c = StateView::InCode(e);
                    assert(run(h, hd + nl) == (c, e, eb));
                    lemma_next_fence(body, 0);
                    match next_fence(body, 0) {
                        None => {
                            lemma_run_in_code(e, body);
                            assert(e + without_tail_ticks(body) =~= without_tail_ticks(body));
                        },
                        Some(k) => {
                            let x = body.take(k);
                            let g = body.subrange(k, k + 3);
                            let rest = body.skip(k + 3);
                            assert(g =~= ticks(3));
                            assert(body =~= (x + g) + rest);
                            assert forall|m: int| !fence_at(x, m) by {
                                if fence_at(x, m) {
                                    assert(fence_at(body, m));
                                }
                            }
                            lemma_tail_ticks(x);
                            if tail_ticks(x) > 0 {
                                assert(x[k - 1] == '`');
                                assert(fence_at(body, k - 1));
                            }
                            lemma_run_in_code(e, x);
                            assert(without_tail_ticks(x) =~= x);
                            assert(e + x =~= x);
                            lemma_run_fence_close(x);
                            lemma_run_concat(c, x, g);
                            lemma_run_concat(c, x + g, rest);
                            lemma_fences(rest);
                            assert(run(c, x + g) == (o, x, seq![x]));
                            assert(eb + seq![x] =~= seq![x]);
                            assert(eb + (seq![x] + fenced_code(rest).0) =~= seq![x] + fenced_code(rest).0);
                        },
                    }
                },
            }
        },
    }
}

/// Fed text from the start, the extractor closes exactly the fenced blocks
/// of the text, in order, and hands out their code one block after the
/// other, followed by the code of a block left open; it reports itself
/// settled exactly where the text does not end in the middle of a fence.
pub proof fn lemma_extractor_follows_fences(s: Seq<char>)
    ensures
        run(StateView::OutsideCode, s).2 == fenced_code(s).0,
        run(StateView::OutsideCode, s).1 == concat_blocks(fenced_code(s).0) + fenced_code(s).1,
        settled(run(StateView::OutsideCode, s).0) == fenced_code(s).2,
{
    lemma_fences(s);
    lemma_emitted_is_blocks_then_pending(s);
}


/// The pieces one after the other.
pub open spec fn concat_pieces(ts: Seq<Seq<char>>) -> Seq<char>
    decreases ts.len(),
{
    if ts.len() == 0 {
        Seq::empty()
    } else {
        concat_pieces(ts.drop_last()) + ts.last()
    }
}

/// What feeding the pieces one after the other does, as `feed` states it for
/// each: the final state, everything handed out, and the blocks closed.
pub open spec fn run_pieces(s: StateView, ts: Seq<Seq<char>>) -> (StateView, Seq<char>, Seq<Seq<char>>)
    decreases ts.len(),
{
    if ts.len() == 0 {
        (s, Seq::empty(), Seq::empty())
    } else {
        let r = run_pieces(s, ts.drop_last());
        let t = run(r.0, ts.last());
        (t.0, r.1 + t.1, r.2 + t.2)
    }
}

proof fn lemma_run_pieces(s: StateView, ts: Seq<Seq<char>>)
    ensures
        run_pieces(s, ts) == run(s, concat_pieces(ts)),
    decreases ts.len(),
{
    if ts.len() == 0 {
        assert(run(s, Seq::<char>::empty()) == (s, Seq::<char>::empty(), Seq::<Seq<char>>::empty()));
    } else {
        lemma_run_pieces(s, ts.drop_last());
        lemma_run_concat(s, concat_pieces(ts.drop_last()), ts.last());
    }
}

/// However a text is cut into pieces, feeding them one after the other to a
/// new extractor closes exactly the fenced blocks of the whole text, hands
/// out their code followed by the code of a block left open, and the last
/// piece is reported settled exactly where the text does not end in the
/// middle of a fence.
pub proof fn lemma_pieces_follow_fences(ts: Seq<Seq<char>>)
    ensures
        run_pieces(StateView::OutsideCode, ts).2 == fenced_code(concat_pieces(ts)).0,
        run_pieces(StateView::OutsideCode, ts).1 == concat_blocks(fenced_code(concat_pieces(ts)).0)
            + fenced_code(concat_pieces(ts)).1,
        settled(run_pieces(StateView::OutsideCode, ts).0) == fenced_code(concat_pieces(ts)).2,
{
    lemma_run_pieces(StateView::OutsideCode, ts);
    lemma_extractor_follows_fences(concat_pieces(ts));
}

} // verus!
