//! A command for the engine: its text and the values bound to its
//! placeholders, in order.

use vstd::prelude::*;
use vstd::string::*;
use crate::text::{copy_texts, extend_texts, push_text};

verus! {

/// A parameterised command: `text` holds one `?` for each of `params`,
/// which are bound to them from left to right.
#[derive(Debug, Clone, PartialEq, Eq)]
pub struct Statement {
    pub text: String,
    pub params: Vec<String>,
}

/// The mathematical value of a [`Statement`].
pub struct StatementView {
    pub text: Seq<char>,
    pub params: Seq<Seq<char>>,
}

impl View for Statement {
    type V = StatementView;

    open spec fn view(&self) -> StatementView {
        StatementView { text: self.text@, params: self.params.deep_view() }
    }
}

impl DeepView for Statement {
    type V = StatementView;

    open spec fn deep_view(&self) -> StatementView {
        self@
    }
}

impl Statement {
    /// A statement with `text`, bound to `first`, `second` and then `rest`.
    pub fn bound(text: &str, first: &str, second: &str, rest: &Vec<String>) -> (r: Statement)
        ensures
            r@ == (StatementView {
                text: text@,
                params: seq![first@, second@] + rest.deep_view(),
            }),
    {
        let mut params: Vec<String> = Vec::new();
        assert(params.deep_view() =~= Seq::empty());
        push_text(&mut params, String::from_str(first));
        push_text(&mut params, String::from_str(second));
        assert(params.deep_view() =~= seq![first@, second@]);
        extend_texts(&mut params, rest);
        Statement { text: String::from_str(text), params }
    }

    /// A copy of the statement.
    pub fn duplicate(&self) -> (r: Statement)
        ensures
            r@ == self@,
    {
        Statement { text: self.text.clone(), params: copy_texts(&self.params) }
    }
}

} // verus!
