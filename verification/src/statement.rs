use vstd::prelude::*;

verus! {

/// A value bound to one placeholder of a statement.
#[derive(Clone, Debug, PartialEq, Eq)]
pub enum Param {
    Int(i64),
    Text(String),
    Bool(bool),
}

/// A [`Param`] as a mathematical value.
pub enum ParamView {
    Int(int),
    Text(Seq<char>),
    Bool(bool),
}

impl View for Param {
    type V = ParamView;

    open spec fn view(&self) -> ParamView {
        match self {
            Param::Int(n) => ParamView::Int(*n as int),
            Param::Text(text) => ParamView::Text(text@),
            Param::Bool(b) => ParamView::Bool(*b),
        }
    }
}

impl DeepView for Param {
    type V = ParamView;

    open spec fn deep_view(&self) -> ParamView {
        self@
    }
}

/// One parameterized statement: its text, and the values for the placeholders
/// `$1`, `$2`, ... in that order.
#[derive(Clone, Debug, PartialEq, Eq)]
pub struct Statement {
    pub sql: String,
    pub params: Vec<Param>,
}

/// A [`Statement`] as a mathematical value.
pub struct StatementView {
    pub sql: Seq<char>,
    pub params: Seq<ParamView>,
}

/// How many of the first `n` characters of `text` are the sign `$`, with
/// which every placeholder begins.
pub open spec fn signs_before(text: Seq<char>, n: nat) -> nat
    decreases n,
{
    if n == 0 {
        0
    } else {
        signs_before(text, (n - 1) as nat) + if text[n - 1] == '$' {
            1nat
        } else {
            0nat
        }
    }
}

/// How many placeholders `text` holds.
pub open spec fn placeholders(text: Seq<char>) -> nat {
    signs_before(text, text.len())
}

impl StatementView {
    /// There is one value for each placeholder of the text.
    pub open spec fn wf(self) -> bool {
        placeholders(self.sql) == self.params.len()
    }
}

impl View for Statement {
    type V = StatementView;

    open spec fn view(&self) -> StatementView {
        StatementView { sql: self.sql@, params: self.params.deep_view() }
    }
}

} // verus!
