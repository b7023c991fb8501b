//! A quiz session: which question is asked next, and how the score stands.
//! The session does no I/O. Its caller shows the prompt of the question
//! that `next` chose, reads a line, and hands the line to `answer`.

use crate::error::QuestionResult;
use crate::pack::Pack;
use crate::question::{reports_reply, Question, QuestionView, Reply, ReplyView};
use vstd::prelude::*;

verus! {

/// The mathematical model of a session.
pub struct SessionView {
    /// The questions of the pack.
    pub pack: Seq<QuestionView>,
    /// How many answers are to be judged in all.
    pub total: nat,
    /// Whether each question is drawn at random.
    pub random: bool,
    /// Whether the right answer is told after a wrong one.
    pub warn_wrong: bool,
    /// How many answers were judged.
    pub asked: nat,
    /// How many of them were wrong.
    pub wrong: nat,
    /// The place in the pack of the question that waits for its answer.
    pub current: Option<nat>,
}

/// How many of the verdicts are misses.
pub open spec fn misses(verdicts: Seq<bool>) -> nat
    decreases verdicts.len(),
{
    if verdicts.len() == 0 {
        0
    } else {
        misses(verdicts.drop_last()) + if verdicts.last() {
            0nat
        } else {
            1nat
        }
    }
}

impl SessionView {
    /// The session before anything was asked. Without a count every
    /// question is asked once, in the order of the pack, whatever `random`
    /// says; with a count, that many answers are judged.
    pub open spec fn start(
        pack: Seq<QuestionView>,
        num: Option<usize>,
        random: bool,
        warn_wrong: bool,
    ) -> SessionView {
        SessionView {
            pack,
            total: match num {
                Some(n) => n as nat,
                None => pack.len(),
            },
            random: random && num is Some,
            warn_wrong,
            asked: 0,
            wrong: 0,
            current: None,
        }
    }

    /// What holds of every session: no more misses than answers, no more
    /// answers than asked for, and a question to ask while any is due.
    pub open spec fn wf(self) -> bool {
        &&& self.wrong <= self.asked <= self.total
        &&& self.asked < self.total ==> self.pack.len() > 0
        &&& self.current matches Some(i) ==> i < self.pack.len() && self.asked < self.total
    }

    /// Whether every answer that was asked for has been judged.
    pub open spec fn over(self) -> bool {
        self.asked >= self.total
    }

    /// The place of the question to ask next: in order, the pack taken
    /// round and round, or at random the place that `draw` falls on.
    pub open spec fn choice(self, draw: nat) -> nat {
        if self.random {
            draw % self.pack.len()
        } else {
            self.asked % self.pack.len()
        }
    }

    /// The session once the next question is chosen; none is, once the
    /// session is over.
    pub open spec fn pick(self, draw: nat) -> SessionView {
        if self.over() {
            SessionView { current: None, ..self }
        } else {
            SessionView { current: Some(self.choice(draw)), ..self }
        }
    }

    /// The question that waits for its answer.
    pub open spec fn question(self) -> QuestionView
        recommends
            self.current is Some,
    {
        self.pack[self.current->Some_0 as int]
    }

    /// The session once the answer to its question is judged.
    pub open spec fn settle(self, right: bool) -> SessionView {
        SessionView {
            asked: self.asked + 1,
            wrong: if right {
                self.wrong
            } else {
                self.wrong + 1
            },
            current: None,
            ..self
        }
    }

    /// The session after a reply: a verdict settles the question, and a
    /// request to ask again changes nothing.
    pub open spec fn after(self, reply: ReplyView) -> SessionView {
        match reply {
            ReplyView::Judged { right, .. } => self.settle(right),
            ReplyView::Retry { .. } => self,
        }
    }

    /// How many answers count as right: all that were asked for but the
    /// wrong ones.
    pub open spec fn right(self) -> nat {
        (self.total - self.wrong) as nat
    }

    /// The session after one question was chosen and judged for each of
    /// `verdicts`, in order, the draws taken from `draws` at the same place.
    pub open spec fn run(self, draws: Seq<nat>, verdicts: Seq<bool>) -> SessionView
        decreases verdicts.len(),
    {
        if verdicts.len() == 0 {
            self
        } else {
            self.run(draws.drop_last(), verdicts.drop_last()).pick(draws.last()).settle(
                verdicts.last(),
            )
        }
    }
}

/// Running on keeps a session well formed and the pack and the settings as
/// they are, and counts: one answer for each verdict, one miss for each
/// verdict that is a miss.
pub proof fn run_counts(s: SessionView, draws: Seq<nat>, verdicts: Seq<bool>)
    requires
        s.wf(),
        draws.len() == verdicts.len(),
        s.asked + verdicts.len() <= s.total,
    ensures
        s.run(draws, verdicts).wf(),
        s.run(draws, verdicts).pack == s.pack,
        s.run(draws, verdicts).total == s.total,
        s.run(draws, verdicts).random == s.random,
        s.run(draws, verdicts).warn_wrong == s.warn_wrong,
        s.run(draws, verdicts).asked == s.asked + verdicts.len(),
        s.run(draws, verdicts).wrong == s.wrong + misses(verdicts),
        s.run(draws, verdicts).current is None || verdicts.len() == 0,
    decreases verdicts.len(),
{
    if verdicts.len() > 0 {
        run_counts(s, draws.drop_last(), verdicts.drop_last());
    }
}

/// In order, the question asked after `k` answers is the one at place `k`
/// modulo the length of the pack, whatever the verdicts were: with a count
/// of 5 on a pack of 3 the places are 0, 1, 2, 0, 1.
pub proof fn asks_in_order(
    pack: Seq<QuestionView>,
    num: usize,
    warn_wrong: bool,
    draws: Seq<nat>,
    verdicts: Seq<bool>,
    draw: nat,
)
    requires
        pack.len() > 0,
        draws.len() == verdicts.len(),
        verdicts.len() < num,
    ensures
        SessionView::start(pack, Some(num), false, warn_wrong).run(draws, verdicts).pick(
            draw,
        ).current == Some(verdicts.len() % pack.len()),
{
    run_counts(SessionView::start(pack, Some(num), false, warn_wrong), draws, verdicts);
}

/// Without a count a pack of N questions takes N answers exactly, each
/// question is asked once at its place in the pack, and at the end the
/// right and the wrong answers are N together.
pub proof fn full_pass(
    pack: Seq<QuestionView>,
    random: bool,
    warn_wrong: bool,
    draws: Seq<nat>,
    verdicts: Seq<bool>,
    draw: nat,
)
    requires
        draws.len() == verdicts.len(),
        verdicts.len() <= pack.len(),
    ensures
        ({
            let s = SessionView::start(pack, None, random, warn_wrong).run(draws, verdicts);
            &&& s.asked == verdicts.len()
            &&& s.over() <==> verdicts.len() == pack.len()
            &&& !s.over() ==> s.pick(draw).current == Some(verdicts.len())
            &&& s.wrong == misses(verdicts)
            &&& s.wrong + s.right() == pack.len()
        }),
{
    run_counts(SessionView::start(pack, None, random, warn_wrong), draws, verdicts);
    if verdicts.len() < pack.len() {
        vstd::arithmetic::div_mod::lemma_small_mod(verdicts.len(), pack.len());
    }
}

/// A number from the thread's generator, `rand::random::<usize>()`. Nothing
/// is promised of it.
#[verifier::external_body]
fn draw_number() -> usize {
    rand::random::<usize>()
}

/// A quiz session on a pack.
pub struct Session<'a> {
    pack: &'a Pack,
    total: usize,
    random: bool,
    warn_wrong: bool,
    asked: usize,
    wrong: usize,
    current: Option<usize>,
}

impl<'a> View for Session<'a> {
    type V = SessionView;

    closed spec fn view(&self) -> SessionView {
        SessionView {
            pack: self.pack@,
            total: self.total as nat,
            random: self.random,
            warn_wrong: self.warn_wrong,
            asked: self.asked as nat,
            wrong: self.wrong as nat,
            current: match self.current {
                Some(i) => Some(i as nat),
                None => None,
            },
        }
    }
}

/// Whether `index` is the place `place`.
pub open spec fn is_place(index: Option<usize>, place: Option<nat>) -> bool {
    match place {
        Some(i) => index == Some(i as usize) && i <= usize::MAX,
        None => index is None,
    }
}

impl Pack {
    /// Starts a session. With `num` that many answers are judged, the
    /// questions drawn at random if `random` is set, and else taken in
    /// order, round and round; without `num` every question is asked once,
    /// in order. Nothing is asked yet.
    pub fn quiz(&self, num: Option<usize>, random: bool, warn_wrong: bool) -> (session: Session<'_>)
        requires
            num matches Some(n) ==> n > 0 ==> self@.len() > 0,
        ensures
            session@ == SessionView::start(self@, num, random, warn_wrong),
    {
        let total: usize = match num {
            Some(n) => n,
            None => self.questions.len(),
        };
        Session {
            pack: self,
            total,
            random: random && num.is_some(),
            warn_wrong,
            asked: 0,
            wrong: 0,
            current: None,
        }
    }
}

impl<'a> Session<'a> {
    #[verifier::type_invariant]
    spec fn inv(self) -> bool {
        self@.wf()
    }

    /// How many answers were judged.
    pub fn asked(&self) -> (n: usize)
        ensures
            n == self@.asked,
    {
        self.asked
    }

    /// How many answers were wrong.
    pub fn wrong(&self) -> (n: usize)
        ensures
            n == self@.wrong,
    {
        self.wrong
    }

    /// How many answers are to be judged in all.
    pub fn total(&self) -> (n: usize)
        ensures
            n == self@.total,
    {
        self.total
    }

    /// The place of the question that waits for its answer.
    pub fn current(&self) -> (index: Option<usize>)
        ensures
            is_place(index, self@.current),
    {
        self.current
    }

    /// Whether every answer that was asked for has been judged.
    pub fn is_over(&self) -> (over: bool)
        ensures
            over == self@.over(),
    {
        self.asked >= self.total
    }

    /// The wrong and the right answers, in this order. The right ones are
    /// all that were asked for but the wrong ones.
    pub fn tally(&self) -> (score: (usize, usize))
        ensures
            self@.wf(),
            score.0 == self@.wrong,
            score.1 == self@.right(),
            score.0 + score.1 == self@.total,
    {
        proof {
            use_type_invariant(self);
        }
        (self.wrong, self.total - self.wrong)
    }

    /// Chooses the next question with `draw` for the random number, and
    /// returns its place; `None` once the session is over.
    pub fn select(&mut self, draw: usize) -> (index: Option<usize>)
        ensures
            old(self)@.wf(),
            final(self)@ == old(self)@.pick(draw as nat),
            is_place(index, final(self)@.current),
    {
        proof {
            use_type_invariant(&*self);
        }
        if self.asked >= self.total {
            self.current = None;
            None
        } else {
            let len: usize = self.pack.questions.len();
            let index: usize = if self.random {
                draw % len
            } else {
                self.asked % len
            };
            self.current = Some(index);
            Some(index)
        }
    }

    /// Chooses the next question, at random if the session asks so, and
    /// returns its place; `None` once the session is over.
    pub fn next(&mut self) -> (index: Option<usize>)
        ensures
            old(self)@.wf(),
            exists|draw: nat| final(self)@ == old(self)@.pick(draw),
            !old(self)@.random ==> final(self)@ == old(self)@.pick(0),
            is_place(index, final(self)@.current),
    {
        let draw: usize = if self.random {
            draw_number()
        } else {
            0
        };
        let ghost before = self@;
        let index = self.select(draw);
        assert(self@ == before.pick(draw as nat));
        index
    }

    /// Takes the line that the user typed in answer to the question that
    /// waits. A verdict settles the question; a reply that asks again
    /// leaves the session as it is, and so does a failure.
    pub fn answer(&mut self, line: &str) -> (r: QuestionResult<Reply>)
        requires
            old(self)@.current is Some,
        ensures
            reports_reply(r, old(self)@.question().reply(line@, old(self)@.warn_wrong)),
            final(self)@ == match r {
                Ok(reply) => old(self)@.after(reply@),
                Err(_) => old(self)@,
            },
    {
        proof {
            use_type_invariant(&*self);
        }
        let index: usize = self.current.unwrap();
        let r = self.pack.questions[index].respond(line, self.warn_wrong);
        match &r {
            Ok(Reply::Judged { right, .. }) => {
                self.current = None;
                self.asked = self.asked + 1;
                if !*right {
                    self.wrong = self.wrong + 1;
                }
            },
            _ => {},
        }
        r
    }
}

} // verus!
