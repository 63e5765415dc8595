//! The single notification slot that reports how a mutation ended.

use vstd::prelude::*;

verus! {

/// Time after which a raised notification is dismissed, in milliseconds.
pub const DISMISS_DELAY_MS: u64 = 1000;

/// What a notification reports.
#[derive(Clone, Debug, PartialEq)]
pub enum NotificationType {
    SuccessAdd,
    SuccessUpdate,
    SuccessDelete,
    Error(String),
}

/// What a `NotificationType` holds, as mathematical values.
pub enum NotificationKind {
    SuccessAdd,
    SuccessUpdate,
    SuccessDelete,
    Error(Seq<char>),
}

impl NotificationKind {
    /// The text shown for the notification; an error shows its own message.
    pub open spec fn message(self) -> Seq<char> {
        match self {
            NotificationKind::SuccessAdd => "Todo item added successfully!"@,
            NotificationKind::SuccessUpdate => "Todo item updated successfully!"@,
            NotificationKind::SuccessDelete => "Todo item deleted successfully!"@,
            NotificationKind::Error(text) => text,
        }
    }
}

impl View for NotificationType {
    type V = NotificationKind;

    open spec fn view(&self) -> NotificationKind {
        match self {
            NotificationType::SuccessAdd => NotificationKind::SuccessAdd,
            NotificationType::SuccessUpdate => NotificationKind::SuccessUpdate,
            NotificationType::SuccessDelete => NotificationKind::SuccessDelete,
            NotificationType::Error(text) => NotificationKind::Error(text@),
        }
    }
}

impl NotificationType {
    /// The text shown for the notification.
    pub fn message(&self) -> (text: String)
        ensures
            text@ == self@.message(),
    {
        match self {
            NotificationType::SuccessAdd => "Todo item added successfully!".to_owned(),
            NotificationType::SuccessUpdate => "Todo item updated successfully!".to_owned(),
            NotificationType::SuccessDelete => "Todo item deleted successfully!".to_owned(),
            NotificationType::Error(text) => text.clone(),
        }
    }
}

/// The slot: at most one notification, shown or hidden.
#[derive(Clone, Debug, PartialEq)]
pub struct NotificationState {
    pub visible: bool,
    pub kind: Option<NotificationType>,
}

/// What a `NotificationState` holds, as mathematical values.
pub struct NotificationView {
    pub visible: bool,
    pub kind: Option<NotificationKind>,
}

impl NotificationView {
    /// The slot with nothing in it.
    pub open spec fn cleared() -> NotificationView {
        NotificationView { visible: false, kind: None }
    }

    /// The slot showing `kind`, whatever it held before.
    pub open spec fn showing(kind: NotificationKind) -> NotificationView {
        NotificationView { visible: true, kind: Some(kind) }
    }

    /// The text in the slot; empty when the slot is.
    pub open spec fn message(self) -> Seq<char> {
        match self.kind {
            Some(kind) => kind.message(),
            None => Seq::empty(),
        }
    }
}

impl View for NotificationState {
    type V = NotificationView;

    open spec fn view(&self) -> NotificationView {
        NotificationView {
            visible: self.visible,
            kind: match self.kind {
                Some(kind) => Some(kind@),
                None => None,
            },
        }
    }
}

impl NotificationState {
    /// An empty, hidden slot.
    pub fn new() -> (state: NotificationState)
        ensures
            state@ == NotificationView::cleared(),
    {
        NotificationState { visible: false, kind: None }
    }

    /// Puts `kind` in the slot and shows it; what was there is overwritten.
    pub fn show(&mut self, kind: NotificationType)
        ensures
            final(self)@ == NotificationView::showing(kind@),
    {
        self.visible = true;
        self.kind = Some(kind);
    }

    /// Empties and hides the slot. The dismissal timer calls this, whichever
    /// notification started it.
    pub fn clear(&mut self)
        ensures
            final(self)@ == NotificationView::cleared(),
    {
        self.visible = false;
        self.kind = None;
    }

    /// The text in the slot; empty when the slot is.
    pub fn message(&self) -> (text: String)
        ensures
            text@ == self@.message(),
    {
        match &self.kind {
            Some(kind) => kind.message(),
            None => String::new(),
        }
    }
}

} // verus!
