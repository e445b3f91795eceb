//! What analysis can find wrong.

use vstd::prelude::*;
use crate::text::{concat3, concat4, concat5, owned};

verus! {

/// A semantic error. Analysis records these and goes on.
#[derive(Debug, Clone)]
pub enum SemanticError {
    UndefinedComponent { name: String },
    UndefinedVariable { name: String },
    UndefinedFunction { name: String },
    /// Reserved.
    UndefinedEvent { name: String },
    /// Reserved.
    TypeMismatch { expected: String, found: String },
    /// Reserved.
    DuplicateDefinition { name: String },
    /// Reserved.
    InvalidAssignmentTarget,
    /// Reserved.
    BCLWriteViolation,
    /// Reserved.
    FieldNotFound { component: String, field: String },
}

/// What a [`SemanticError`] denotes.
pub enum SemanticErrorView {
    UndefinedComponent { name: Seq<char> },
    UndefinedVariable { name: Seq<char> },
    UndefinedFunction { name: Seq<char> },
    UndefinedEvent { name: Seq<char> },
    TypeMismatch { expected: Seq<char>, found: Seq<char> },
    DuplicateDefinition { name: Seq<char> },
    InvalidAssignmentTarget,
    BCLWriteViolation,
    FieldNotFound { component: Seq<char>, field: Seq<char> },
}

impl SemanticErrorView {
    /// The text shown for this error.
    pub open spec fn message(self) -> Seq<char> {
        match self {
            SemanticErrorView::UndefinedComponent { name } => "Undefined component '"@ + name + "'"@,
            SemanticErrorView::UndefinedVariable { name } => "Undefined variable '"@ + name + "'"@,
            SemanticErrorView::UndefinedFunction { name } => "Undefined function '"@ + name + "'"@,
            SemanticErrorView::UndefinedEvent { name } => "Undefined event '"@ + name + "'"@,
            SemanticErrorView::TypeMismatch { expected, found } => "Type mismatch: expected "@ + expected
                + ", found "@ + found,
            SemanticErrorView::DuplicateDefinition { name } => "Duplicate definition of '"@ + name + "'"@,
            SemanticErrorView::InvalidAssignmentTarget => "Invalid assignment target"@,
            SemanticErrorView::BCLWriteViolation => "Cannot modify state in BCL (choice function)"@,
            SemanticErrorView::FieldNotFound { component, field } => "Field '"@ + field
                + "' not found in component '"@ + component + "'"@,
        }
    }
}

impl SemanticError {
    pub open spec fn spec_view(self) -> SemanticErrorView {
        match self {
            SemanticError::UndefinedComponent { name } => SemanticErrorView::UndefinedComponent { name: name@ },
            SemanticError::UndefinedVariable { name } => SemanticErrorView::UndefinedVariable { name: name@ },
            SemanticError::UndefinedFunction { name } => SemanticErrorView::UndefinedFunction { name: name@ },
            SemanticError::UndefinedEvent { name } => SemanticErrorView::UndefinedEvent { name: name@ },
            SemanticError::TypeMismatch { expected, found } => SemanticErrorView::TypeMismatch {
                expected: expected@,
                found: found@,
            },
            SemanticError::DuplicateDefinition { name } => SemanticErrorView::DuplicateDefinition { name: name@ },
            SemanticError::InvalidAssignmentTarget => SemanticErrorView::InvalidAssignmentTarget,
            SemanticError::BCLWriteViolation => SemanticErrorView::BCLWriteViolation,
            SemanticError::FieldNotFound { component, field } => SemanticErrorView::FieldNotFound {
                component: component@,
                field: field@,
            },
        }
    }

    /// The values of a list of errors.
    pub open spec fn views(s: Seq<SemanticError>) -> Seq<SemanticErrorView> {
        Seq::new(s.len(), |i: int| s[i].spec_view())
    }

    /// The text shown for this error.
    pub fn message(&self) -> (text: String)
        ensures
            text@ == self@.message(),
    {
        match self {
            SemanticError::UndefinedComponent { name } => concat3("Undefined component '", name.as_str(), "'"),
            SemanticError::UndefinedVariable { name } => concat3("Undefined variable '", name.as_str(), "'"),
            SemanticError::UndefinedFunction { name } => concat3("Undefined function '", name.as_str(), "'"),
            SemanticError::UndefinedEvent { name } => concat3("Undefined event '", name.as_str(), "'"),
            SemanticError::TypeMismatch { expected, found } => concat4(
                "Type mismatch: expected ",
                expected.as_str(),
                ", found ",
                found.as_str(),
            ),
            SemanticError::DuplicateDefinition { name } => concat3("Duplicate definition of '", name.as_str(), "'"),
            SemanticError::InvalidAssignmentTarget => owned("Invalid assignment target"),
            SemanticError::BCLWriteViolation => owned("Cannot modify state in BCL (choice function)"),
            SemanticError::FieldNotFound { component, field } => concat5(
                "Field '",
                field.as_str(),
                "' not found in component '",
                component.as_str(),
                "'",
            ),
        }
    }
}

impl View for SemanticError {
    type V = SemanticErrorView;

    open spec fn view(&self) -> SemanticErrorView {
        (*self).spec_view()
    }
}

/// Viewing commutes with appending one error.
pub broadcast proof fn lemma_semantic_error_views_push(s: Seq<SemanticError>, x: SemanticError)
    ensures
        #[trigger] SemanticError::views(s.push(x)) == SemanticError::views(s).push(x.spec_view()),
{
    assert(SemanticError::views(s.push(x)) =~= SemanticError::views(s).push(x.spec_view()));
}

/// The messages of the first `n` errors, one per line.
pub open spec fn joined_messages(errors: Seq<SemanticErrorView>, n: nat) -> Seq<char>
    decreases n,
{
    if n == 0 || n > errors.len() {
        Seq::empty()
    } else if n == 1 {
        errors[0].message()
    } else {
        joined_messages(errors, (n - 1) as nat) + "\n"@ + errors[n - 1].message()
    }
}

} // verus!
