//! The selection engine. A freshness round draws cards at random and asks the
//! dedup record about each, until one is fresh or the round's budget is spent;
//! rounds repeat until the card they produce has a caption short enough to
//! post.
//!
//! The engine decides and the caller acts: every step hands back an `Action`,
//! and the caller performs it (asks the dedup record) and reports the answer
//! with the next step.

use vstd::prelude::*;
use crate::dedup::{identity_of, Identity, UsedSet};
use crate::selector::{alt_text, caption, caption_length, Card};

verus! {

/// How many times one freshness round asks the dedup record before it takes
/// the card it holds, used or not.
pub const CHECK_ITERATIONS: usize = 5;

/// The longest caption, in UTF-8 bytes, that the platform accepts.
pub const CAPTION_LIMIT: usize = 300;

/// How many freshness rounds one selection runs before it gives up on finding
/// a caption that fits.
pub const MAX_ROUNDS: usize = 1000;

/// The card's caption is short enough to post.
pub open spec fn fits(c: Card) -> bool {
    caption_length(c) <= CAPTION_LIMIT
}

/// Relies on rand::random_range: a value drawn from `0..bound`; it panics on
/// an empty range, which `requires` leaves out.
#[verifier::external_body]
fn random_index(bound: usize) -> (r: usize)
    requires
        bound > 0,
    ensures
        r < bound,
{
    rand::random_range(0..bound)
}

/// What the caller does next.
#[derive(Clone, Copy, Debug, PartialEq, Eq, Structural)]
pub enum Action {
    /// Begin a freshness round: call `begin`.
    Draw,
    /// Ask the dedup record `check_and_mark` about the card at `index`, and
    /// report what it said to `answer`.
    Check { index: usize },
    /// The selection is over: the card at `index` is the one to post.
    Chosen { index: usize },
    /// Every round ended on a caption that is too long.
    Exhausted,
}

/// Where a selection stands.
#[derive(Clone, Copy, Debug, PartialEq, Eq, Structural)]
pub struct Selection {
    /// The card the dedup record is being asked about.
    pub candidate: usize,
    /// The answers received in the current freshness round.
    pub checks: usize,
    /// The freshness rounds that ended on a caption that is too long.
    pub rounds: usize,
}

impl Selection {
    /// A selection that waits for an answer about one of `len` cards.
    pub open spec fn wf(self, len: nat) -> bool {
        &&& self.candidate < len
        &&& self.checks < CHECK_ITERATIONS
        &&& self.rounds < MAX_ROUNDS
    }

    /// A freshness round begins with the card at `draw`.
    pub open spec fn spec_begin(self, draw: usize) -> (Selection, Action) {
        (
            Selection { candidate: draw, checks: 0, rounds: self.rounds },
            Action::Check { index: draw },
        )
    }

    /// A freshness round ends with the card at `pick`: it is chosen if its
    /// caption fits, else another round begins, if any is left.
    pub open spec fn spec_finish(self, corpus: Seq<Card>, pick: usize) -> (Selection, Action) {
        if fits(corpus[pick as int]) {
            (
                Selection { candidate: pick, checks: self.checks, rounds: self.rounds },
                Action::Chosen { index: pick },
            )
        } else if self.rounds + 1 < MAX_ROUNDS {
            (
                Selection { candidate: pick, checks: 0, rounds: (self.rounds + 1) as usize },
                Action::Draw,
            )
        } else {
            (
                Selection { candidate: pick, checks: 0, rounds: (self.rounds + 1) as usize },
                Action::Exhausted,
            )
        }
    }

    /// The dedup record said whether the candidate was `used`; `draw` is the
    /// card drawn next, if one is needed. A fresh candidate ends the round; a
    /// used one is replaced by `draw`, which after the last answer of the
    /// budget ends the round unasked.
    pub open spec fn spec_answer(self, corpus: Seq<Card>, used: bool, draw: usize) -> (
        Selection,
        Action,
    ) {
        if !used {
            self.spec_finish(corpus, self.candidate)
        } else if self.checks + 1 < CHECK_ITERATIONS {
            (
                Selection { candidate: draw, checks: (self.checks + 1) as usize, rounds: self.rounds },
                Action::Check { index: draw },
            )
        } else {
            Selection { candidate: draw, checks: (self.checks + 1) as usize, rounds: self.rounds }.spec_finish(
                corpus,
                draw,
            )
        }
    }

    /// A selection that has not begun; its first action is `Action::Draw`.
    pub fn new() -> (r: Selection)
        ensures
            r == (Selection { candidate: 0, checks: 0, rounds: 0 }),
    {
        Selection { candidate: 0, checks: 0, rounds: 0 }
    }

    /// Begins a freshness round with the card at `draw`.
    pub fn begin_with(&self, corpus: &Vec<Card>, draw: usize) -> (r: (Selection, Action))
        requires
            draw < corpus.len(),
            self.rounds < MAX_ROUNDS,
        ensures
            r == self.spec_begin(draw),
            r.0.wf(corpus.len() as nat),
    {
        (Selection { candidate: draw, checks: 0, rounds: self.rounds }, Action::Check { index: draw })
    }

    /// Begins a freshness round with a card drawn at random.
    pub fn begin(&self, corpus: &Vec<Card>) -> (r: (Selection, Action))
        requires
            corpus.len() > 0,
            self.rounds < MAX_ROUNDS,
        ensures
            exists|d: usize| d < corpus.len() && r == #[trigger] self.spec_begin(d),
            r.0.wf(corpus.len() as nat),
            r.0.checks == 0,
            r.0.rounds == self.rounds,
            r.1 == (Action::Check { index: r.0.candidate }),
    {
        let draw = random_index(corpus.len());
        self.begin_with(corpus, draw)
    }

    fn finish(&self, corpus: &Vec<Card>, pick: usize) -> (r: (Selection, Action))
        requires
            pick < corpus.len(),
            self.rounds < MAX_ROUNDS,
        ensures
            r == self.spec_finish(corpus@, pick),
    {
        if corpus[pick].caption_length() <= CAPTION_LIMIT {
            (
                Selection { candidate: pick, checks: self.checks, rounds: self.rounds },
                Action::Chosen { index: pick },
            )
        } else if self.rounds + 1 < MAX_ROUNDS {
            (Selection { candidate: pick, checks: 0, rounds: self.rounds + 1 }, Action::Draw)
        } else {
            (Selection { candidate: pick, checks: 0, rounds: self.rounds + 1 }, Action::Exhausted)
        }
    }

    /// Takes the dedup record's answer about the candidate, with `draw` as
    /// the card to try next should one be needed.
    pub fn answer_with(&self, corpus: &Vec<Card>, used: bool, draw: usize) -> (r: (
        Selection,
        Action,
    ))
        requires
            self.wf(corpus.len() as nat),
            draw < corpus.len(),
        ensures
            r == self.spec_answer(corpus@, used, draw),
            r.1 is Check ==> used && r.0.checks == self.checks + 1 && r.0.wf(corpus.len() as nat),
            r.1 is Draw ==> r.0.wf(corpus.len() as nat) && r.0.checks == 0 && r.0.rounds
                == self.rounds + 1,
            r.1 is Exhausted ==> self.rounds + 1 == MAX_ROUNDS,
            r.1 matches Action::Chosen { index } ==> index < corpus.len() && fits(
                corpus@[index as int],
            ),
            r.1 matches Action::Chosen { index } ==> (!used && index == self.candidate) || (used
                && self.checks + 1 == CHECK_ITERATIONS),
            r.1 is Check ==> r.0.rounds == self.rounds,
            self.rounds <= r.0.rounds <= self.rounds + 1,
            r.0.checks <= CHECK_ITERATIONS,
            r.1 is Draw || r.1 is Exhausted ==> r.0.candidate < corpus.len() && !fits(
                corpus@[r.0.candidate as int],
            ),
    {
        if !used {
            self.finish(corpus, self.candidate)
        } else if self.checks + 1 < CHECK_ITERATIONS {
            (
                Selection { candidate: draw, checks: self.checks + 1, rounds: self.rounds },
                Action::Check { index: draw },
            )
        } else {
            let spent = Selection { candidate: draw, checks: self.checks + 1, rounds: self.rounds };
            spent.finish(corpus, draw)
        }
    }

    /// Takes the dedup record's answer about the candidate, and draws the
    /// card to try next at random should one be needed.
    pub fn answer(&self, corpus: &Vec<Card>, used: bool) -> (r: (Selection, Action))
        requires
            self.wf(corpus.len() as nat),
        ensures
            exists|d: usize| d < corpus.len() && r == #[trigger] self.spec_answer(corpus@, used, d),
            r.1 is Check ==> used && r.0.checks == self.checks + 1 && r.0.wf(corpus.len() as nat),
            r.1 is Draw ==> r.0.wf(corpus.len() as nat) && r.0.checks == 0 && r.0.rounds
                == self.rounds + 1,
            r.1 is Exhausted ==> self.rounds + 1 == MAX_ROUNDS,
            r.1 matches Action::Chosen { index } ==> index < corpus.len() && fits(
                corpus@[index as int],
            ),
            r.1 matches Action::Chosen { index } ==> (!used && index == self.candidate) || (used
                && self.checks + 1 == CHECK_ITERATIONS),
            r.1 is Check ==> r.0.rounds == self.rounds,
            self.rounds <= r.0.rounds <= self.rounds + 1,
            r.0.checks <= CHECK_ITERATIONS,
            r.1 is Draw || r.1 is Exhausted ==> r.0.candidate < corpus.len() && !fits(
                corpus@[r.0.candidate as int],
            ),
    {
        let draw = random_index(corpus.len());
        self.answer_with(corpus, used, draw)
    }
}

/// What the engine does after a run of answers that all report the candidate
/// used, `draws` giving the card drawn after each.
pub open spec fn after_used_answers(s: Selection, corpus: Seq<Card>, draws: Seq<usize>) -> (
    Selection,
    Action,
)
    decreases draws.len(),
{
    if draws.len() == 0 {
        (s, Action::Check { index: s.candidate })
    } else {
        after_used_answers(s, corpus, draws.drop_last()).0.spec_answer(corpus, true, draws.last())
    }
}

/// When every card asked about is reported used, a freshness round asks the
/// dedup record exactly `CHECK_ITERATIONS` times: after each of the first
/// answers it asks about the card drawn next, and after the last one it asks
/// no more and takes the card drawn last, which is chosen if its caption fits.
pub proof fn lemma_round_asks_budget_then_falls_back(
    s: Selection,
    corpus: Seq<Card>,
    draws: Seq<usize>,
)
    requires
        s.wf(corpus.len()),
        s.checks == 0,
        0 < draws.len() <= CHECK_ITERATIONS,
        forall|i: int| 0 <= i < draws.len() ==> #[trigger] draws[i] < corpus.len(),
    ensures
        draws.len() < CHECK_ITERATIONS ==> {
            let r = after_used_answers(s, corpus, draws);
            &&& r.1 == (Action::Check { index: draws.last() })
            &&& r.0.checks == draws.len()
            &&& r.0.wf(corpus.len())
            &&& r.0.rounds == s.rounds
        },
        draws.len() == CHECK_ITERATIONS ==> !(after_used_answers(s, corpus, draws).1 is Check),
        draws.len() == CHECK_ITERATIONS && fits(corpus[draws.last() as int]) ==> after_used_answers(
            s,
            corpus,
            draws,
        ).1 == (Action::Chosen { index: draws.last() }),
    decreases draws.len(),
{
    assert(draws[draws.len() - 1] < corpus.len());
    if draws.len() > 1 {
        let prefix = draws.drop_last();
        assert forall|i: int| 0 <= i < prefix.len() implies #[trigger] prefix[i] < corpus.len() by {
            assert(prefix[i] == draws[i]);
        }
        lemma_round_asks_budget_then_falls_back(s, corpus, prefix);
    } else {
        assert(after_used_answers(s, corpus, draws.drop_last()) == (s, Action::Check { index: s.candidate }));
    }
}

/// The card picked for a post, with the texts of the post.
pub struct CandidatePost {
    /// The card's place in the corpus.
    pub index: usize,
    pub caption: String,
    pub alt_text: String,
}

/// Runs a whole selection over `corpus`, with `used` as the dedup record.
/// The card chosen has a caption that fits; a corpus whose captions all fit
/// always yields one. The record keeps what it held and gains only the
/// identities of corpus cards.
pub fn select(corpus: &Vec<Card>, used: &mut UsedSet) -> (r: Option<CandidatePost>)
    requires
        corpus.len() > 0,
    ensures
        r matches Some(p) ==> {
            &&& p.index < corpus.len()
            &&& p.caption@ == caption(corpus@[p.index as int])
            &&& p.alt_text@ == alt_text(corpus@[p.index as int])
            &&& caption_length(corpus@[p.index as int]) <= CAPTION_LIMIT
        },
        (forall|i: int| 0 <= i < corpus.len() ==> #[trigger] fits(corpus@[i])) ==> r is Some,
        old(used)@.subset_of(final(used)@),
        forall|x: (Seq<char>, Seq<char>)|
            #![trigger final(used)@.contains(x)]
            final(used)@.contains(x) && !old(used)@.contains(x) ==> exists|i: int|
                0 <= i < corpus.len() && x == identity_of(#[trigger] corpus@[i]),
{
    let ghost initial = used@;
    let ghost all_fit = forall|i: int| 0 <= i < corpus.len() ==> #[trigger] fits(corpus@[i]);
    let mut sel = Selection::new();
    let mut action = Action::Draw;
    loop
        invariant
            corpus.len() > 0,
            sel.rounds <= MAX_ROUNDS,
            sel.checks <= CHECK_ITERATIONS,
            action is Draw ==> sel.rounds < MAX_ROUNDS,
            action matches Action::Check { index } ==> sel.wf(corpus.len() as nat) && index
                == sel.candidate,
            action matches Action::Chosen { index } ==> index < corpus.len() && fits(
                corpus@[index as int],
            ),
            all_fit == (forall|i: int| 0 <= i < corpus.len() ==> #[trigger] fits(corpus@[i])),
            all_fit ==> sel.rounds == 0 && !(action is Exhausted),
            initial == old(used)@,
            initial.subset_of(used@),
            forall|x: (Seq<char>, Seq<char>)|
                #![trigger used@.contains(x)]
                used@.contains(x) && !initial.contains(x) ==> exists|i: int|
                    0 <= i < corpus.len() && x == identity_of(#[trigger] corpus@[i]),
        decreases
            MAX_ROUNDS - sel.rounds,
            match action {
                Action::Draw => 2int,
                Action::Check { .. } => 1int,
                _ => 0int,
            },
            CHECK_ITERATIONS - sel.checks,
    {
        match action {
            Action::Draw => {
                let (s, a) = sel.begin(corpus);
                sel = s;
                action = a;
            },
            Action::Check { index } => {
                let id = Identity::of_card(&corpus[index]);
                let ghost before = used@;
                let was_used = used.check_and_mark(&id);
                proof {
                    assert forall|x: (Seq<char>, Seq<char>)|
                        used@.contains(x) && !initial.contains(x) implies exists|i: int|
                        0 <= i < corpus.len() && x == identity_of(#[trigger] corpus@[i]) by {
                        if x == id@ {
                            assert(x == identity_of(corpus@[index as int]));
                        } else {
                            assert(before.contains(x));
                        }
                    }
                }
                let (s, a) = sel.answer(corpus, was_used);
                sel = s;
                action = a;
            },
            Action::Chosen { index } => {
                let card = &corpus[index];
                return Some(CandidatePost { index, caption: card.text(), alt_text: card.alt_text() });
            },
            Action::Exhausted => {
                return None;
            },
        }
    }
}

} // verus!
