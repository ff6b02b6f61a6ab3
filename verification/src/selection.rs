//! The selections to which a colour can be handed.

use vstd::prelude::*;
use vstd::string::*;

use crate::text::same_text;

verus! {

/// One of the three selections of the display server.
#[derive(Clone, Copy, Debug, PartialEq, Eq, Structural)]
pub enum Selection {
    Primary,
    Secondary,
    Clipboard,
}

/// A name that is not the name of a selection.
#[derive(Clone, Copy, Debug, PartialEq, Eq, Structural)]
pub enum SelectionError {
    InvalidSelection,
}

/// What reaches the owner of a selection.
#[derive(Clone, Copy, Debug, PartialEq, Eq, Structural)]
pub enum SelectionEvent {
    /// Someone asks for the selection, converted to `target`, to be
    /// written to `property`.
    Request { target: u32, property: u32 },
    /// Someone else has taken the selection.
    Clear,
    Other,
    /// The connection is gone.
    Closed,
}

/// What the owner of a selection does about an event.
#[derive(Clone, Copy, Debug, PartialEq, Eq, Structural)]
pub enum SelectionAction {
    /// Write the text to `property` and tell the requestor so.
    SendText { property: u32 },
    /// Write the list of targets to `property` and tell the requestor so.
    SendTargets { property: u32 },
    /// Tell the requestor that the conversion is refused.
    Refuse,
    Ignore,
    Stop,
}

/// The property that stands for "none" in the notice of a refusal.
pub const NO_PROPERTY: u32 = 0;

pub open spec fn selection_action_for(
    event: SelectionEvent,
    utf8_string: u32,
    targets: u32,
) -> SelectionAction {
    match event {
        SelectionEvent::Request { target, property } => if target == utf8_string {
            SelectionAction::SendText { property }
        } else if target == targets {
            SelectionAction::SendTargets { property }
        } else {
            SelectionAction::Refuse
        },
        SelectionEvent::Clear => SelectionAction::Stop,
        SelectionEvent::Other => SelectionAction::Ignore,
        SelectionEvent::Closed => SelectionAction::Stop,
    }
}

/// What to do about `event` while owning the selection, given the atoms
/// for UTF-8 text and for the list of targets: a request for text gets the
/// text, a request for the targets gets their list, any other request is
/// refused; the loss of the selection or of the connection ends the work.
pub fn selection_action(event: SelectionEvent, utf8_string: u32, targets: u32) -> (action:
    SelectionAction)
    ensures
        action == selection_action_for(event, utf8_string, targets),
{
    match event {
        SelectionEvent::Request { target, property } => {
            if target == utf8_string {
                SelectionAction::SendText { property }
            } else if target == targets {
                SelectionAction::SendTargets { property }
            } else {
                SelectionAction::Refuse
            }
        },
        SelectionEvent::Clear => SelectionAction::Stop,
        SelectionEvent::Other => SelectionAction::Ignore,
        SelectionEvent::Closed => SelectionAction::Stop,
    }
}

impl SelectionAction {
    pub open spec fn spec_property(self) -> u32 {
        match self {
            SelectionAction::SendText { property } => property,
            SelectionAction::SendTargets { property } => property,
            _ => NO_PROPERTY,
        }
    }

    /// The property to name in the notice to the requestor.
    pub fn property(&self) -> (property: u32)
        ensures
            property == self.spec_property(),
    {
        match self {
            SelectionAction::SendText { property } => *property,
            SelectionAction::SendTargets { property } => *property,
            _ => NO_PROPERTY,
        }
    }
}

/// The selection that goes by `name`, in lower case.
pub open spec fn selection_named(name: Seq<char>) -> Option<Selection> {
    if name == "primary"@ {
        Some(Selection::Primary)
    } else if name == "secondary"@ {
        Some(Selection::Secondary)
    } else if name == "clipboard"@ {
        Some(Selection::Clipboard)
    } else {
        None
    }
}

impl SelectionError {
    pub open spec fn text(self) -> Seq<char> {
        "Invalid selection"@
    }

    /// The message to show to the user.
    pub fn message(&self) -> (message: String)
        ensures
            message@ == self.text(),
    {
        "Invalid selection".to_owned()
    }
}

impl Selection {
    pub open spec fn spec_atom_name(self) -> Seq<char> {
        match self {
            Selection::Primary => "PRIMARY"@,
            Selection::Secondary => "SECONDARY"@,
            Selection::Clipboard => "CLIPBOARD"@,
        }
    }

    /// The name of the atom by which the display server knows the
    /// selection.
    pub fn atom_name(&self) -> (name: &'static str)
        ensures
            name@ == self.spec_atom_name(),
    {
        match self {
            Selection::Primary => "PRIMARY",
            Selection::Secondary => "SECONDARY",
            Selection::Clipboard => "CLIPBOARD",
        }
    }
}

impl core::str::FromStr for Selection {
    type Err = SelectionError;

    fn from_str(string: &str) -> (result: Result<Selection, SelectionError>)
        ensures
            match result {
                Ok(selection) => selection_named(string@) == Some(selection),
                Err(_) => selection_named(string@) is None,
            },
    {
        if same_text(string, "primary") {
            Ok(Selection::Primary)
        } else if same_text(string, "secondary") {
            Ok(Selection::Secondary)
        } else if same_text(string, "clipboard") {
            Ok(Selection::Clipboard)
        } else {
            Err(SelectionError::InvalidSelection)
        }
    }
}

} // verus!
