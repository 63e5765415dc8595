//! Editing a record in place: the draft of its fields that lives while the
//! edit panel of its row is open.

use vstd::prelude::*;
use crate::mutation::{Mutation, MutationView};
use crate::record::{Todo, TodoView};

verus! {

/// The working copy of the fields that an update changes.
#[derive(Clone, Debug, PartialEq)]
pub struct UpdateForm {
    pub title: String,
    pub description: String,
    pub due_date: String,
}

/// What an `UpdateForm` holds, as mathematical values.
pub struct FormView {
    pub title: Seq<char>,
    pub description: Seq<char>,
    pub due_date: Seq<char>,
}

impl FormView {
    /// The form with all fields empty.
    pub open spec fn empty() -> FormView {
        FormView { title: Seq::empty(), description: Seq::empty(), due_date: Seq::empty() }
    }

    /// The form filled from a record.
    pub open spec fn of(todo: TodoView) -> FormView {
        FormView { title: todo.title, description: todo.description, due_date: todo.due_date }
    }

    /// The form after `value` was typed into the title field: an empty
    /// value is not taken over.
    pub open spec fn with_title(self, value: Seq<char>) -> FormView {
        if value.len() == 0 {
            self
        } else {
            FormView { title: value, ..self }
        }
    }

    /// The form after `value` was typed into the description field.
    pub open spec fn with_description(self, value: Seq<char>) -> FormView {
        FormView { description: value, ..self }
    }

    /// The form after `value` was picked in the due date field: an empty
    /// value is not taken over.
    pub open spec fn with_due_date(self, value: Seq<char>) -> FormView {
        if value.len() == 0 {
            self
        } else {
            FormView { due_date: value, ..self }
        }
    }

    /// Both required fields are filled.
    pub open spec fn complete(self) -> bool {
        self.title.len() > 0 && self.due_date.len() > 0
    }

    /// The update of record `id` that the form asks for.
    pub open spec fn update(self, id: int) -> MutationView {
        MutationView::Update {
            id,
            title: self.title,
            description: self.description,
            due_date: self.due_date,
        }
    }
}

impl View for UpdateForm {
    type V = FormView;

    open spec fn view(&self) -> FormView {
        FormView {
            title: self.title@,
            description: self.description@,
            due_date: self.due_date@,
        }
    }
}

impl Default for UpdateForm {
    fn default() -> (form: UpdateForm)
        ensures
            form@ == FormView::empty(),
    {
        UpdateForm { title: String::new(), description: String::new(), due_date: String::new() }
    }
}

impl UpdateForm {
    /// A form filled from a record.
    pub fn from_todo(todo: &Todo) -> (form: UpdateForm)
        ensures
            form@ == FormView::of(todo@),
    {
        UpdateForm {
            title: todo.title.clone(),
            description: todo.description.clone(),
            due_date: todo.due_date.clone(),
        }
    }

    /// Takes what was typed into the title field.
    pub fn set_title(&mut self, value: String)
        ensures
            final(self)@ == old(self)@.with_title(value@),
    {
        if !value.as_str().is_empty() {
            self.title = value;
        }
    }

    /// Takes what was typed into the description field.
    pub fn set_description(&mut self, value: String)
        ensures
            final(self)@ == old(self)@.with_description(value@),
    {
        self.description = value;
    }

    /// Takes what was picked in the due date field.
    pub fn set_due_date(&mut self, value: String)
        ensures
            final(self)@ == old(self)@.with_due_date(value@),
    {
        if !value.as_str().is_empty() {
            self.due_date = value;
        }
    }

    /// The update of record `id` that the form asks for.
    pub fn into_update(self, id: i32) -> (mutation: Mutation)
        ensures
            mutation@ == self@.update(id as int),
    {
        Mutation::Update {
            id,
            title: self.title,
            description: self.description,
            due_date: self.due_date,
        }
    }
}

/// One row of the list: a record and, while its edit panel is open, the
/// draft of its fields.
#[derive(Clone, Debug, PartialEq)]
pub struct TodoRow {
    todo: Todo,
    draft: Option<UpdateForm>,
}

/// What a `TodoRow` holds, as mathematical values.
pub struct RowView {
    pub todo: TodoView,
    pub draft: Option<FormView>,
}

impl RowView {
    /// The record has its required fields, and so has the draft.
    pub open spec fn wf(self) -> bool {
        &&& self.todo.title.len() > 0
        &&& self.todo.due_date.len() > 0
        &&& self.draft matches Some(form) ==> form.complete()
    }

    /// The row after a click on the record: the panel opens on a draft
    /// filled from the record; an open panel stays as it is.
    pub open spec fn opened(self) -> RowView {
        match self.draft {
            Some(_) => self,
            None => RowView { draft: Some(FormView::of(self.todo)), ..self },
        }
    }

    /// The row after the panel was closed: the draft is gone.
    pub open spec fn closed(self) -> RowView {
        RowView { draft: None, ..self }
    }

    /// The row after `change` was applied to the draft; a closed panel
    /// takes no input.
    pub open spec fn edited(self, change: spec_fn(FormView) -> FormView) -> RowView {
        match self.draft {
            Some(form) => RowView { draft: Some(change(form)), ..self },
            None => self,
        }
    }

    /// The update that saving asks for; none from a closed panel.
    pub open spec fn saved(self) -> Option<MutationView> {
        match self.draft {
            Some(form) => Some(form.update(self.todo.id)),
            None => None,
        }
    }
}

/// On a row whose record has a title and a due date, no click and no input
/// ever leaves the draft without one of them, so what is saved passes the
/// validation of an update.
pub proof fn lemma_draft_keeps_required_fields(row: RowView, value: Seq<char>)
    requires
        row.wf(),
    ensures
        row.opened().wf(),
        row.closed().wf(),
        row.edited(|form: FormView| form.with_title(value)).wf(),
        row.edited(|form: FormView| form.with_description(value)).wf(),
        row.edited(|form: FormView| form.with_due_date(value)).wf(),
        row.saved() matches Some(mutation) ==> mutation.validation() is Ok,
{
}

impl View for TodoRow {
    type V = RowView;

    closed spec fn view(&self) -> RowView {
        RowView {
            todo: self.todo@,
            draft: match self.draft {
                Some(form) => Some(form@),
                None => None,
            },
        }
    }
}

impl TodoRow {
    /// A row for `todo`, with the panel closed.
    pub fn new(todo: Todo) -> (row: TodoRow)
        ensures
            row@ == (RowView { todo: todo@, draft: None }),
    {
        TodoRow { todo, draft: None }
    }

    /// The record of the row.
    pub fn todo(&self) -> (todo: &Todo)
        ensures
            todo@ == self@.todo,
    {
        &self.todo
    }

    /// The draft, while the panel is open.
    pub fn draft(&self) -> (draft: &Option<UpdateForm>)
        ensures
            match *draft {
                Some(form) => self@.draft == Some(form@),
                None => self@.draft is None,
            },
    {
        &self.draft
    }

    /// Whether the panel is open.
    pub fn is_editing(&self) -> (editing: bool)
        ensures
            editing == self@.draft is Some,
    {
        self.draft.is_some()
    }

    /// Opens the panel.
    pub fn edit(&mut self)
        ensures
            final(self)@ == old(self)@.opened(),
    {
        if self.draft.is_none() {
            self.draft = Some(UpdateForm::from_todo(&self.todo));
        }
    }

    /// Closes the panel without saving.
    pub fn close(&mut self)
        ensures
            final(self)@ == old(self)@.closed(),
    {
        self.draft = None;
    }

    /// Takes what was typed into the title field of the panel.
    pub fn input_title(&mut self, value: String)
        ensures
            final(self)@ == old(self)@.edited(|form: FormView| form.with_title(value@)),
    {
        let mut draft: Option<UpdateForm> = None;
        std::mem::swap(&mut draft, &mut self.draft);
        if let Some(mut form) = draft {
            form.set_title(value);
            self.draft = Some(form);
        }
    }

    /// Takes what was typed into the description field of the panel.
    pub fn input_description(&mut self, value: String)
        ensures
            final(self)@ == old(self)@.edited(|form: FormView| form.with_description(value@)),
    {
        let mut draft: Option<UpdateForm> = None;
        std::mem::swap(&mut draft, &mut self.draft);
        if let Some(mut form) = draft {
            form.set_description(value);
            self.draft = Some(form);
        }
    }

    /// Takes what was picked in the due date field of the panel.
    pub fn input_due_date(&mut self, value: String)
        ensures
            final(self)@ == old(self)@.edited(|form: FormView| form.with_due_date(value@)),
    {
        let mut draft: Option<UpdateForm> = None;
        std::mem::swap(&mut draft, &mut self.draft);
        if let Some(mut form) = draft {
            form.set_due_date(value);
            self.draft = Some(form);
        }
    }

    /// Saves: hands out the update that the draft asks for and closes the
    /// panel. A closed panel has nothing to save.
    pub fn save(&mut self) -> (mutation: Option<Mutation>)
        ensures
            final(self)@ == old(self)@.closed(),
            match mutation {
                Some(update) => old(self)@.saved() == Some(update@),
                None => old(self)@.saved() is None,
            },
    {
        let mut draft: Option<UpdateForm> = None;
        std::mem::swap(&mut draft, &mut self.draft);
        match draft {
            Some(form) => Some(form.into_update(self.todo.id)),
            None => None,
        }
    }

    /// The mutation that ticking the checkbox of the row asks for.
    pub fn complete(&self) -> (mutation: Mutation)
        ensures
            mutation@ == (MutationView::Complete { id: self@.todo.id }),
    {
        Mutation::Complete { id: self.todo.id }
    }

    /// The mutation that the delete button of the row asks for.
    pub fn delete(&self) -> (mutation: Mutation)
        ensures
            mutation@ == (MutationView::Delete { id: self@.todo.id }),
    {
        Mutation::Delete { id: self.todo.id }
    }
}

} // verus!
