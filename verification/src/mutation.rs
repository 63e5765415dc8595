//! The four mutations of the list and the validation that each passes
//! before it is sent.

use vstd::prelude::*;

verus! {

/// The kinds of mutation; each kind has its own version counter.
#[derive(Clone, Copy, Debug, PartialEq, Eq, Structural)]
pub enum MutationKind {
    Add,
    Complete,
    Update,
    Delete,
}

/// Why a mutation was rejected before it was sent.
#[derive(Clone, Copy, Debug, PartialEq, Eq, Structural)]
pub enum ValidationError {
    EmptyTitle,
    EmptyDueDate,
}

impl ValidationError {
    /// The text shown for the error.
    pub open spec fn message_spec(self) -> Seq<char> {
        match self {
            ValidationError::EmptyTitle => "title cannot be empty"@,
            ValidationError::EmptyDueDate => "due_date cannot be empty"@,
        }
    }

    /// The text shown for the error.
    pub fn message(&self) -> (text: String)
        ensures
            text@ == self.message_spec(),
    {
        match self {
            ValidationError::EmptyTitle => "title cannot be empty".to_owned(),
            ValidationError::EmptyDueDate => "due_date cannot be empty".to_owned(),
        }
    }
}

/// The rule for the two required fields: the title is looked at first.
pub open spec fn required_fields(
    title: Seq<char>,
    due_date: Seq<char>,
) -> Result<(), ValidationError> {
    if title.len() == 0 {
        Err(ValidationError::EmptyTitle)
    } else if due_date.len() == 0 {
        Err(ValidationError::EmptyDueDate)
    } else {
        Ok(())
    }
}

/// Checks that neither the title nor the due date is empty.
pub fn validate_fields(title: &str, due_date: &str) -> (result: Result<(), ValidationError>)
    ensures
        result == required_fields(title@, due_date@),
{
    if title.is_empty() {
        Err(ValidationError::EmptyTitle)
    } else if due_date.is_empty() {
        Err(ValidationError::EmptyDueDate)
    } else {
        Ok(())
    }
}

/// A request to change the store.
#[derive(Clone, Debug, PartialEq)]
pub enum Mutation {
    Add { title: String, description: String, due_date: String },
    Complete { id: i32 },
    Update { id: i32, title: String, description: String, due_date: String },
    Delete { id: i32 },
}

/// What a `Mutation` holds, as mathematical values.
pub enum MutationView {
    Add { title: Seq<char>, description: Seq<char>, due_date: Seq<char> },
    Complete { id: int },
    Update { id: int, title: Seq<char>, description: Seq<char>, due_date: Seq<char> },
    Delete { id: int },
}

impl MutationView {
    pub open spec fn kind(self) -> MutationKind {
        match self {
            MutationView::Add { .. } => MutationKind::Add,
            MutationView::Complete { .. } => MutationKind::Complete,
            MutationView::Update { .. } => MutationKind::Update,
            MutationView::Delete { .. } => MutationKind::Delete,
        }
    }

    /// Add and Update need a title and a due date; Complete and Delete carry
    /// only an id and are never rejected.
    pub open spec fn validation(self) -> Result<(), ValidationError> {
        match self {
            MutationView::Add { title, due_date, .. } => required_fields(title, due_date),
            MutationView::Update { title, due_date, .. } => required_fields(title, due_date),
            MutationView::Complete { .. } => Ok(()),
            MutationView::Delete { .. } => Ok(()),
        }
    }
}

/// A completion and a deletion are never rejected, whatever the id and
/// however often it is handed in.
pub proof fn lemma_id_mutations_are_valid(id: int)
    ensures
        (MutationView::Complete { id }).validation() is Ok,
        (MutationView::Delete { id }).validation() is Ok,
{
}

impl View for Mutation {
    type V = MutationView;

    open spec fn view(&self) -> MutationView {
        match self {
            Mutation::Add { title, description, due_date } => MutationView::Add {
                title: title@,
                description: description@,
                due_date: due_date@,
            },
            Mutation::Complete { id } => MutationView::Complete { id: *id as int },
            Mutation::Update { id, title, description, due_date } => MutationView::Update {
                id: *id as int,
                title: title@,
                description: description@,
                due_date: due_date@,
            },
            Mutation::Delete { id } => MutationView::Delete { id: *id as int },
        }
    }
}

impl Mutation {
    pub fn kind(&self) -> (kind: MutationKind)
        ensures
            kind == self@.kind(),
    {
        match self {
            Mutation::Add { .. } => MutationKind::Add,
            Mutation::Complete { .. } => MutationKind::Complete,
            Mutation::Update { .. } => MutationKind::Update,
            Mutation::Delete { .. } => MutationKind::Delete,
        }
    }

    /// Decides whether the mutation may be sent.
    pub fn validate(&self) -> (result: Result<(), ValidationError>)
        ensures
            result == self@.validation(),
    {
        match self {
            Mutation::Add { title, due_date, .. } => validate_fields(
                title.as_str(),
                due_date.as_str(),
            ),
            Mutation::Update { title, due_date, .. } => validate_fields(
                title.as_str(),
                due_date.as_str(),
            ),
            Mutation::Complete { .. } => Ok(()),
            Mutation::Delete { .. } => Ok(()),
        }
    }
}

} // verus!
