//! Findings of semantic analysis.

use crate::lexer::Position;
use vstd::prelude::*;

verus! {

/// A finding. The texts are the name of the trait, the name of the method
/// and the names of the method's parameter types.
#[derive(Debug, PartialEq, Eq)]
pub enum Msg {
    MethodNotInTrait(String, String, Vec<String>),
    StaticMethodNotInTrait(String, String, Vec<String>),
    MethodMissingFromTrait(String, String, Vec<String>),
    StaticMethodMissingFromTrait(String, String, Vec<String>),
}

/// A finding as a value.
pub enum MsgView {
    MethodNotInTrait(Seq<char>, Seq<char>, Seq<Seq<char>>),
    StaticMethodNotInTrait(Seq<char>, Seq<char>, Seq<Seq<char>>),
    MethodMissingFromTrait(Seq<char>, Seq<char>, Seq<Seq<char>>),
    StaticMethodMissingFromTrait(Seq<char>, Seq<char>, Seq<Seq<char>>),
}

/// The texts of `v`.
pub open spec fn texts(v: Seq<String>) -> Seq<Seq<char>> {
    v.map_values(|s: String| s@)
}

impl View for Msg {
    type V = MsgView;

    open spec fn view(&self) -> MsgView {
        match self {
            Msg::MethodNotInTrait(t, m, a) => MsgView::MethodNotInTrait(t@, m@, texts(a@)),
            Msg::StaticMethodNotInTrait(t, m, a) => MsgView::StaticMethodNotInTrait(
                t@,
                m@,
                texts(a@),
            ),
            Msg::MethodMissingFromTrait(t, m, a) => MsgView::MethodMissingFromTrait(
                t@,
                m@,
                texts(a@),
            ),
            Msg::StaticMethodMissingFromTrait(t, m, a) => MsgView::StaticMethodMissingFromTrait(
                t@,
                m@,
                texts(a@),
            ),
        }
    }
}

/// The findings so far, each with the place it is about.
#[derive(Debug)]
pub struct Diagnostic {
    errors: Vec<(Position, Msg)>,
}

impl View for Diagnostic {
    type V = Seq<(Position, MsgView)>;

    closed spec fn view(&self) -> Seq<(Position, MsgView)> {
        self.errors@.map_values(|e: (Position, Msg)| (e.0, e.1@))
    }
}

impl Diagnostic {
    /// No findings.
    pub fn new() -> (d: Diagnostic)
        ensures
            d@ == Seq::<(Position, MsgView)>::empty(),
    {
        let d = Diagnostic { errors: Vec::new() };
        assert(d@ =~= Seq::<(Position, MsgView)>::empty());
        d
    }

    /// Records a finding about `pos`.
    pub fn report_without_path(&mut self, pos: Position, msg: Msg)
        ensures
            final(self)@ == old(self)@.push((pos, msg@)),
    {
        let ghost view = msg@;
        self.errors.push((pos, msg));
        proof {
            assert(self@ =~= old(self)@.push((pos, view)));
        }
    }

    /// Number of findings.
    pub fn len(&self) -> (n: usize)
        ensures
            n == self@.len(),
    {
        self.errors.len()
    }

    /// Whether there is a finding.
    pub fn has_errors(&self) -> (r: bool)
        ensures
            r == (self@.len() > 0),
    {
        self.errors.len() > 0
    }

    /// Finding `i`: the place it is about, and what it says.
    pub fn error(&self, i: usize) -> (r: (Position, &Msg))
        requires
            i < self@.len(),
        ensures
            r.0 == self@[i as int].0,
            r.1@ == self@[i as int].1,
    {
        (self.errors[i].0, &self.errors[i].1)
    }
}

} // verus!
