//! What the user asked for: which formatter, which selection, and the
//! values that hold where nothing was said.

use vstd::prelude::*;

use core::str::FromStr;

use crate::color::ARGB;
use crate::error::FormatError;
use crate::grammar::parsed;
use crate::parser::parse_format_string;
use crate::preset::{named, preset_text, Format, HexCompaction};
use crate::selection::{selection_named, Selection};
use crate::template::{rendered_parts, FormatColor, FormatString, PartView};

verus! {

/// The width of the preview where none is given.
pub const DEFAULT_PREVIEW_SIZE: u32 = 255;

/// The scale of magnification where none is given.
pub const DEFAULT_SCALE: u32 = 8;

/// The way in which colours are written: a template of the user's, or one
/// of the built-in formats.
#[derive(Debug)]
pub enum Formatter {
    Custom(FormatString),
    Preset(Format),
}

/// A `Formatter` as the contracts see it.
pub enum FormatterView {
    Custom(Seq<PartView>),
    Preset(Format),
}

/// The formatter for what the user gave: the custom template where there
/// is one, else the built-in format of the given name, else `hex`.
pub open spec fn chosen(custom: Option<Seq<char>>, name: Option<Seq<char>>) -> Result<
    FormatterView,
    FormatError,
> {
    match custom {
        Some(template) => match parsed(template) {
            Some(parts) => Ok(FormatterView::Custom(parts)),
            None => Err(FormatError::InvalidFormatString),
        },
        None => match name {
            Some(name) => match named(name) {
                Some(format) => Ok(FormatterView::Preset(format)),
                None => Err(FormatError::InvalidFormat),
            },
            None => Ok(FormatterView::Preset(Format::LowercaseHex(HexCompaction::Full))),
        },
    }
}

/// The selection to hand the colour to: none where the option was not
/// given, the clipboard where it was given without a name, the named one
/// where the name is a selection's, and none where it is not.
pub open spec fn chosen_selection(given: bool, name: Option<Seq<char>>) -> Option<Selection> {
    if !given {
        None
    } else {
        match name {
            Some(name) => selection_named(name),
            None => Some(Selection::Clipboard),
        }
    }
}

pub open spec fn views(text: Option<&str>) -> Option<Seq<char>> {
    match text {
        Some(text) => Some(text@),
        None => None,
    }
}

impl View for Formatter {
    type V = FormatterView;

    open spec fn view(&self) -> FormatterView {
        match self {
            Formatter::Custom(template) => FormatterView::Custom(template@),
            Formatter::Preset(format) => FormatterView::Preset(*format),
        }
    }
}

impl FormatterView {
    /// What the formatter writes for `color`.
    pub open spec fn rendered(self, color: ARGB) -> Seq<char> {
        match self {
            FormatterView::Custom(parts) => rendered_parts(parts, color),
            FormatterView::Preset(format) => preset_text(format, color),
        }
    }
}

impl FormatColor for Formatter {
    open spec fn rendered(&self, color: ARGB) -> Seq<char> {
        self@.rendered(color)
    }

    fn format(&self, color: ARGB) -> (text: String) {
        match self {
            Formatter::Custom(template) => template.format(color),
            Formatter::Preset(format) => format.format(color),
        }
    }
}

impl Formatter {
    /// Builds the formatter from the custom template and the format name
    /// that the user gave, if any.
    pub fn select(custom: Option<&str>, name: Option<&str>) -> (result: Result<
        Formatter,
        FormatError,
    >)
        ensures
            match result {
                Ok(formatter) => chosen(views(custom), views(name)) == Ok::<
                    FormatterView,
                    FormatError,
                >(formatter@),
                Err(error) => chosen(views(custom), views(name)) == Err::<
                    FormatterView,
                    FormatError,
                >(error),
            },
    {
        match custom {
            Some(template) => match parse_format_string(template) {
                Ok(template) => Ok(Formatter::Custom(template)),
                Err(error) => Err(error),
            },
            None => match name {
                Some(name) => match Format::from_str(name) {
                    Ok(format) => Ok(Formatter::Preset(format)),
                    Err(error) => Err(error),
                },
                None => Ok(Formatter::Preset(Format::LowercaseHex(HexCompaction::Full))),
            },
        }
    }
}

/// The selection that the user chose, if any.
pub fn selection_choice(given: bool, name: Option<&str>) -> (selection: Option<Selection>)
    ensures
        selection == chosen_selection(given, views(name)),
{
    if !given {
        return None;
    }
    match name {
        Some(name) => match Selection::from_str(name) {
            Ok(selection) => Some(selection),
            Err(_) => None,
        },
        None => Some(Selection::Clipboard),
    }
}

} // verus!
