//! The planner's text field: the style classes it is drawn with, and the
//! edits it passes on.

use crate::text::texts;
use vstd::prelude::*;
use vstd::string::*;

verus! {

/// Where a text field's icon sits.
#[derive(Clone, Copy, Debug, PartialEq, Eq, Structural)]
pub enum MaterialTextFieldIconStyle {
    Leading,
    Trailing,
}

/// The names of the icon styles.
pub const LEADING: &'static str = "leading";
pub const TRAILING: &'static str = "trailing";

/// The name of an icon style.
pub open spec fn icon_style_label(style: MaterialTextFieldIconStyle) -> Seq<char> {
    match style {
        MaterialTextFieldIconStyle::Leading => LEADING@,
        MaterialTextFieldIconStyle::Trailing => TRAILING@,
    }
}

impl MaterialTextFieldIconStyle {
    /// The name of the style, as the style classes use it.
    pub fn label(&self) -> (s: &'static str)
        ensures
            s@ == icon_style_label(*self),
    {
        match self {
            MaterialTextFieldIconStyle::Leading => LEADING,
            MaterialTextFieldIconStyle::Trailing => TRAILING,
        }
    }
}

/// The style classes and inline style of a text field and its icon.
pub const TEXT_FIELD: &'static str = "mdc-text-field";
pub const FILLED: &'static str = "mdc-text-field--filled";
pub const DISABLED: &'static str = "mdc-text-field--disabled";
pub const NO_LABEL: &'static str = "mdc-text-field--no-label";
pub const END_ALIGNED: &'static str = "mdc-text-field--end-aligned";
pub const WITH_ICON_PREFIX: &'static str = "mdc-text-field--with-";
pub const WITH_ICON_SUFFIX: &'static str = "-icon";
pub const MATERIAL_ICONS: &'static str = "material-icons";
pub const ICON: &'static str = "mdc-text-field__icon";
pub const ICON_STYLE_PREFIX: &'static str = "mdc-text-field__icon--";
pub const BACKGROUND_COLOR: &'static str = "background-color: ";

/// `s` when `keep` holds, else nothing.
pub open spec fn when(keep: bool, s: Seq<char>) -> Seq<Seq<char>> {
    if keep {
        seq![s]
    } else {
        Seq::empty()
    }
}

/// The style classes of a text field: always filled; disabled, without a
/// label and aligned to the end as asked; and with its icon's style.
pub open spec fn text_field_class_texts(
    disabled: bool,
    has_label: bool,
    end_aligned: bool,
    icon: Option<MaterialTextFieldIconStyle>,
) -> Seq<Seq<char>> {
    seq![TEXT_FIELD@, FILLED@] + when(disabled, DISABLED@) + when(!has_label, NO_LABEL@) + when(
        end_aligned,
        END_ALIGNED@,
    ) + match icon {
        Some(style) => seq![WITH_ICON_PREFIX@ + icon_style_label(style) + WITH_ICON_SUFFIX@],
        None => Seq::empty(),
    }
}

/// The style classes of a text field.
pub fn text_field_classes(
    disabled: bool,
    has_label: bool,
    end_aligned: bool,
    icon: Option<MaterialTextFieldIconStyle>,
) -> (classes: Vec<String>)
    ensures
        texts(classes@) == text_field_class_texts(disabled, has_label, end_aligned, icon),
{
    let mut classes: Vec<String> = Vec::new();
    classes.push(String::from_str(TEXT_FIELD));
    classes.push(String::from_str(FILLED));
    let ghost base = texts(classes@);
    assert(base =~= seq![TEXT_FIELD@, FILLED@]);
    if disabled {
        classes.push(String::from_str(DISABLED));
    }
    let ghost a = texts(classes@);
    assert(a =~= base + when(disabled, DISABLED@));
    if !has_label {
        classes.push(String::from_str(NO_LABEL));
    }
    let ghost b = texts(classes@);
    assert(b =~= a + when(!has_label, NO_LABEL@));
    if end_aligned {
        classes.push(String::from_str(END_ALIGNED));
    }
    let ghost c = texts(classes@);
    assert(c =~= b + when(end_aligned, END_ALIGNED@));
    match icon {
        Some(style) => {
            let mut with_icon = String::from_str(WITH_ICON_PREFIX);
            with_icon.append(style.label());
            with_icon.append(WITH_ICON_SUFFIX);
            classes.push(with_icon);
            assert(texts(classes@) =~= c + seq![
                WITH_ICON_PREFIX@ + icon_style_label(style) + WITH_ICON_SUFFIX@,
            ]);
        },
        None => {
            assert(texts(classes@) =~= c + Seq::<Seq<char>>::empty());
        },
    }
    classes
}

/// The style classes of a text field's icon.
pub fn icon_classes(style: MaterialTextFieldIconStyle) -> (classes: Vec<String>)
    ensures
        texts(classes@) == seq![MATERIAL_ICONS@, ICON@, ICON_STYLE_PREFIX@ + icon_style_label(style)],
{
    let mut classes: Vec<String> = Vec::new();
    classes.push(String::from_str(MATERIAL_ICONS));
    classes.push(String::from_str(ICON));
    let mut styled = String::from_str(ICON_STYLE_PREFIX);
    styled.append(style.label());
    classes.push(styled);
    assert(texts(classes@) =~= seq![MATERIAL_ICONS@, ICON@, ICON_STYLE_PREFIX@ + icon_style_label(style)]);
    classes
}

/// The inline style of a text field's icon: its background colour, if it
/// has one.
pub fn icon_style_attribute(background_color: &Option<String>) -> (style: String)
    ensures
        style@ == match background_color {
            Some(c) => BACKGROUND_COLOR@ + c@,
            None => Seq::<char>::empty(),
        },
{
    match background_color {
        Some(c) => {
            let mut style = String::from_str(BACKGROUND_COLOR);
            style.append(c.as_str());
            style
        },
        None => String::new(),
    }
}

/// The edits of a text field.
pub enum MaterialTextFieldMessage {
    ChangeValue(String),
}

/// A text field passes every typed value on to its owner and is not drawn
/// again for it; gives the value to pass on.
pub fn text_field_update(msg: MaterialTextFieldMessage) -> (r: (bool, String))
    ensures
        match msg {
            MaterialTextFieldMessage::ChangeValue(value) => !r.0 && r.1@ == value@,
        },
{
    match msg {
        MaterialTextFieldMessage::ChangeValue(value) => (false, value),
    }
}

} // verus!
