//! Style properties and cascade resolution.
//!
//! A style scope attaches one property assignment to a content value.
//! The ordered stack of scopes that encloses a point in the content tree
//! is a [`StyleChain`]; resolving a property walks that chain and applies
//! the property's combination discipline: *override* (the innermost
//! assigning scope wins outright) or *fold* (each assignment is combined
//! with the already-resolved outer value by a per-property combinator).

use vstd::prelude::*;

use crate::casing::Case;

verus! {

/// The delta a strong-emphasis element applies to the font weight when
/// no enclosing scope overrides its setting.
pub const STRONG_DELTA_DEFAULT: i64 = 300;

/// A font-weight adjustment that is summed up when folded.
#[derive(Debug, Clone, Copy, PartialEq, Eq, Hash)]
pub struct Delta(pub i64);

impl Delta {
    /// The fold combinator of the font-weight property: the new
    /// contribution is added to the resolved outer value.
    pub fn fold(self, outer: i64) -> (r: i64)
        requires
            i64::MIN <= outer + self.0 <= i64::MAX,
        ensures
            r == outer + self.0,
    {
        outer + self.0
    }
}

/// A toggle that turns on and off alternatingly when folded.
#[derive(Debug, Clone, Copy, PartialEq, Eq, Hash)]
pub struct Toggle;

impl Toggle {
    /// The fold combinator of the italic property: each assignment
    /// negates the resolved outer value.
    pub fn fold(self, outer: bool) -> (r: bool)
        ensures
            r == !outer,
    {
        !outer
    }
}

/// One style property assignment, the payload of one style scope.
///
/// Each variant is one property of the closed property set, together
/// with its combination discipline and base default:
/// - `FontDelta`: fold (delta-sum), base `0`;
/// - `Italic`: fold (toggle), base `false`;
/// - `CaseTransform`: override, base `None`;
/// - `Smallcaps`: override, base `false`;
/// - `StrongDelta`: override, base [`STRONG_DELTA_DEFAULT`].
#[derive(Debug, Clone, Copy, PartialEq, Eq, Hash)]
pub enum StyleEntry {
    /// An adjustment of the font weight.
    FontDelta(Delta),
    /// A toggle of italic emphasis.
    Italic(Toggle),
    /// A case transformation, or `None` to leave text untouched.
    CaseTransform(Option<Case>),
    /// Whether text renders in small capitals.
    Smallcaps(bool),
    /// The font-weight delta that strong emphasis applies.
    StrongDelta(i64),
}

/// Effective font-weight delta of a chain: the base default `0` plus
/// every `FontDelta` contribution, combined outside-in.
pub open spec fn resolve_delta(chain: Seq<StyleEntry>) -> int
    decreases chain.len(),
{
    if chain.len() == 0 {
        0
    } else {
        let outer = resolve_delta(chain.drop_last());
        match chain.last() {
            StyleEntry::FontDelta(d) => outer + d.0,
            _ => outer,
        }
    }
}

/// Effective italic state of a chain: the base default `false`, negated
/// once per `Italic` assignment, combined outside-in.
pub open spec fn resolve_italic(chain: Seq<StyleEntry>) -> bool
    decreases chain.len(),
{
    if chain.len() == 0 {
        false
    } else {
        let outer = resolve_italic(chain.drop_last());
        match chain.last() {
            StyleEntry::Italic(_) => !outer,
            _ => outer,
        }
    }
}

/// Effective case transform of a chain: the innermost `CaseTransform`
/// assignment, or the base default `None`.
pub open spec fn resolve_case(chain: Seq<StyleEntry>) -> Option<Case>
    decreases chain.len(),
{
    if chain.len() == 0 {
        None
    } else {
        match chain.last() {
            StyleEntry::CaseTransform(c) => c,
            _ => resolve_case(chain.drop_last()),
        }
    }
}

/// Effective small-capitals flag of a chain: the innermost `Smallcaps`
/// assignment, or the base default `false`.
pub open spec fn resolve_smallcaps(chain: Seq<StyleEntry>) -> bool
    decreases chain.len(),
{
    if chain.len() == 0 {
        false
    } else {
        match chain.last() {
            StyleEntry::Smallcaps(b) => b,
            _ => resolve_smallcaps(chain.drop_last()),
        }
    }
}

/// Effective strong-emphasis delta of a chain: the innermost
/// `StrongDelta` assignment, or the base default.
pub open spec fn resolve_strong_delta(chain: Seq<StyleEntry>) -> i64
    decreases chain.len(),
{
    if chain.len() == 0 {
        STRONG_DELTA_DEFAULT
    } else {
        match chain.last() {
            StyleEntry::StrongDelta(d) => d,
            _ => resolve_strong_delta(chain.drop_last()),
        }
    }
}

/// How many `Italic` assignments a chain holds.
pub open spec fn toggle_count(chain: Seq<StyleEntry>) -> nat
    decreases chain.len(),
{
    if chain.len() == 0 {
        0
    } else {
        toggle_count(chain.drop_last()) + if chain.last() matches StyleEntry::Italic(_) {
            1nat
        } else {
            0nat
        }
    }
}

/// Every prefix of the chain resolves its font-weight delta within the
/// machine integer range, so the fold never overflows.
pub open spec fn delta_in_range(chain: Seq<StyleEntry>) -> bool {
    forall|i: int|
        0 <= i <= chain.len() ==> i64::MIN <= resolve_delta(#[trigger] chain.subrange(0, i))
            <= i64::MAX
}

/// The ordered stack of style scopes active at a point in the content
/// tree. The first entry is the outermost scope, the last the innermost.
#[derive(Debug)]
pub struct StyleChain {
    pub entries: Vec<StyleEntry>,
}

impl View for StyleChain {
    type V = Seq<StyleEntry>;

    open spec fn view(&self) -> Seq<StyleEntry> {
        self.entries@
    }
}

impl StyleChain {
    /// An empty chain: every property resolves to its base default.
    pub fn new() -> (r: StyleChain)
        ensures
            r@ == Seq::<StyleEntry>::empty(),
    {
        StyleChain { entries: Vec::new() }
    }

    /// Pushes one assignment as the new innermost scope.
    pub fn push(&mut self, entry: StyleEntry)
        ensures
            final(self)@ == old(self)@.push(entry),
    {
        self.entries.push(entry);
    }

    /// Resolves the font-weight delta property (fold, delta-sum).
    ///
    /// The chain must keep every intermediate accumulation within the
    /// machine integer range; that is a machine limit, not a rule of the
    /// cascade.
    pub fn get_delta(&self) -> (r: i64)
        requires
            delta_in_range(self@),
        ensures
            r == resolve_delta(self@),
    {
        let n: usize = self.entries.len();
        let mut acc: i64 = 0;
        let mut i: usize = 0;
        proof {
            assert(self@.subrange(0, 0) =~= Seq::<StyleEntry>::empty());
        }
        while i < n
            invariant
                i <= n,
                n == self@.len(),
                delta_in_range(self@),
                acc == resolve_delta(self@.subrange(0, i as int)),
            decreases n - i,
        {
            proof {
                assert(self@.subrange(0, i + 1).drop_last() =~= self@.subrange(0, i as int));
                assert(i64::MIN <= resolve_delta(self@.subrange(0, i + 1)) <= i64::MAX);
            }
            match self.entries[i] {
                StyleEntry::FontDelta(d) => {
                    acc = acc + d.0;
                },
                _ => {},
            }
            i = i + 1;
        }
        proof {
            assert(self@.subrange(0, n as int) =~= self@);
        }
        acc
    }

    /// Resolves the italic property (fold, toggle).
    pub fn get_italic(&self) -> (r: bool)
        ensures
            r == resolve_italic(self@),
    {
        let n: usize = self.entries.len();
        let mut acc = false;
        let mut i: usize = 0;
        proof {
            assert(self@.subrange(0, 0) =~= Seq::<StyleEntry>::empty());
        }
        while i < n
            invariant
                i <= n,
                n == self@.len(),
                acc == resolve_italic(self@.subrange(0, i as int)),
            decreases n - i,
        {
            proof {
                assert(self@.subrange(0, i + 1).drop_last() =~= self@.subrange(0, i as int));
            }
            match self.entries[i] {
                StyleEntry::Italic(_) => {
                    acc = !acc;
                },
                _ => {},
            }
            i = i + 1;
        }
        proof {
            assert(self@.subrange(0, n as int) =~= self@);
        }
        acc
    }

    /// Resolves the case-transform property (override).
    pub fn get_case(&self) -> (r: Option<Case>)
        ensures
            r == resolve_case(self@),
    {
        let mut i: usize = self.entries.len();
        proof {
            assert(self@.subrange(0, i as int) =~= self@);
        }
        while i > 0
            invariant
                i <= self@.len(),
                resolve_case(self@) == resolve_case(self@.subrange(0, i as int)),
            decreases i,
        {
            i = i - 1;
            proof {
                assert(self@.subrange(0, i + 1).drop_last() =~= self@.subrange(0, i as int));
            }
            match self.entries[i] {
                StyleEntry::CaseTransform(c) => {
                    return c;
                },
                _ => {},
            }
        }
        None
    }

    /// Resolves the small-capitals property (override).
    pub fn get_smallcaps(&self) -> (r: bool)
        ensures
            r == resolve_smallcaps(self@),
    {
        let mut i: usize = self.entries.len();
        proof {
            assert(self@.subrange(0, i as int) =~= self@);
        }
        while i > 0
            invariant
                i <= self@.len(),
                resolve_smallcaps(self@) == resolve_smallcaps(self@.subrange(0, i as int)),
            decreases i,
        {
            i = i - 1;
            proof {
                assert(self@.subrange(0, i + 1).drop_last() =~= self@.subrange(0, i as int));
            }
            match self.entries[i] {
                StyleEntry::Smallcaps(b) => {
                    return b;
                },
                _ => {},
            }
        }
        false
    }

    /// Resolves the strong-emphasis delta property (override).
    pub fn get_strong_delta(&self) -> (r: i64)
        ensures
            r == resolve_strong_delta(self@),
    {
        let mut i: usize = self.entries.len();
        proof {
            assert(self@.subrange(0, i as int) =~= self@);
        }
        while i > 0
            invariant
                i <= self@.len(),
                resolve_strong_delta(self@) == resolve_strong_delta(self@.subrange(0, i as int)),
            decreases i,
        {
            i = i - 1;
            proof {
                assert(self@.subrange(0, i + 1).drop_last() =~= self@.subrange(0, i as int));
            }
            match self.entries[i] {
                StyleEntry::StrongDelta(d) => {
                    return d;
                },
                _ => {},
            }
        }
        STRONG_DELTA_DEFAULT
    }
}

/// Law: delta-sum resolution distributes over splitting a chain, so a
/// chain of nested delta assignments resolves to the base default plus
/// the sum of all assigned deltas.
pub proof fn lemma_delta_concat(s1: Seq<StyleEntry>, s2: Seq<StyleEntry>)
    ensures
        resolve_delta(s1 + s2) == resolve_delta(s1) + resolve_delta(s2),
    decreases s2.len(),
{
    if s2.len() == 0 {
        assert(s1 + s2 =~= s1);
    } else {
        lemma_delta_concat(s1, s2.drop_last());
        assert((s1 + s2).drop_last() =~= s1 + s2.drop_last());
        assert((s1 + s2).last() == s2.last());
    }
}

/// Law: the order of delta assignments does not matter: two groups of
/// scopes contribute the same effective delta in either nesting order.
pub proof fn lemma_delta_order_independent(s1: Seq<StyleEntry>, s2: Seq<StyleEntry>)
    ensures
        resolve_delta(s1 + s2) == resolve_delta(s2 + s1),
{
    lemma_delta_concat(s1, s2);
    lemma_delta_concat(s2, s1);
}

/// Law: one more delta assignment adds exactly its value, and an
/// assignment of any other property leaves the effective delta alone.
pub proof fn lemma_delta_step(s: Seq<StyleEntry>, e: StyleEntry)
    ensures
        e matches StyleEntry::FontDelta(d) ==> resolve_delta(s.push(e)) == resolve_delta(s) + d.0,
        !(e matches StyleEntry::FontDelta(_)) ==> resolve_delta(s.push(e)) == resolve_delta(s),
{
    assert(s.push(e).drop_last() =~= s);
}

/// The chain of scopes that a sequence of nested delta-sum assignments
/// with the given values produces.
pub open spec fn delta_chain(ds: Seq<i64>) -> Seq<StyleEntry> {
    ds.map_values(|d: i64| StyleEntry::FontDelta(Delta(d)))
}

/// The sum of a sequence of delta values.
pub open spec fn delta_sum(ds: Seq<i64>) -> int
    decreases ds.len(),
{
    if ds.len() == 0 {
        0
    } else {
        delta_sum(ds.drop_last()) + ds.last()
    }
}

/// Law: a chain of nested delta-sum assignments with values `d1..dn`
/// resolves to the base default `0` plus the sum of `d1..dn`.
pub proof fn lemma_delta_chain_sums(ds: Seq<i64>)
    ensures
        resolve_delta(delta_chain(ds)) == delta_sum(ds),
    decreases ds.len(),
{
    if ds.len() == 0 {
        assert(delta_chain(ds) =~= Seq::<StyleEntry>::empty());
    } else {
        lemma_delta_chain_sums(ds.drop_last());
        assert(delta_chain(ds).drop_last() =~= delta_chain(ds.drop_last()));
        assert(delta_chain(ds).last() == StyleEntry::FontDelta(Delta(ds.last())));
    }
}

/// The chain that a sequence of `n` nested toggle assignments produces.
pub open spec fn toggle_chain(n: nat) -> Seq<StyleEntry> {
    Seq::new(n, |i: int| StyleEntry::Italic(Toggle))
}

/// Law: a chain of `n` nested toggle assignments resolves to the base
/// default `false` when `n` is even and to its negation when `n` is
/// odd: the toggle is self-inverse and order-independent.
pub proof fn lemma_toggle_chain_parity(n: nat)
    ensures
        resolve_italic(toggle_chain(n)) == (n % 2 == 1),
    decreases n,
{
    if n == 0 {
        assert(toggle_chain(n) =~= Seq::<StyleEntry>::empty());
    } else {
        lemma_toggle_chain_parity((n - 1) as nat);
        assert(toggle_chain(n).drop_last() =~= toggle_chain((n - 1) as nat));
    }
}

/// Law: toggle resolution depends only on the parity of the number of
/// toggle assignments: an even count yields the base default `false`,
/// an odd count its negation.
pub proof fn lemma_toggle_parity(s: Seq<StyleEntry>)
    ensures
        resolve_italic(s) == (toggle_count(s) % 2 == 1),
    decreases s.len(),
{
    if s.len() > 0 {
        lemma_toggle_parity(s.drop_last());
    }
}

/// Law: the toggle combinator is self-inverse: nesting two emphasis
/// scopes restores the italic state that held outside them.
pub proof fn lemma_toggle_self_inverse(s: Seq<StyleEntry>)
    ensures
        resolve_italic(s.push(StyleEntry::Italic(Toggle)).push(StyleEntry::Italic(Toggle)))
            == resolve_italic(s),
{
    let once = s.push(StyleEntry::Italic(Toggle));
    let twice = once.push(StyleEntry::Italic(Toggle));
    assert(once.drop_last() =~= s);
    assert(twice.drop_last() =~= once);
    assert(resolve_italic(once) == !resolve_italic(s));
    assert(resolve_italic(twice) == !resolve_italic(once));
}

/// Law: for override-discipline properties the innermost assigning
/// scope supplies the effective value, whatever the outer chain holds.
pub proof fn lemma_override_innermost(s: Seq<StyleEntry>, c: Option<Case>, b: bool, d: i64)
    ensures
        resolve_case(s.push(StyleEntry::CaseTransform(c))) == c,
        resolve_smallcaps(s.push(StyleEntry::Smallcaps(b))) == b,
        resolve_strong_delta(s.push(StyleEntry::StrongDelta(d))) == d,
{
}

} // verus!
