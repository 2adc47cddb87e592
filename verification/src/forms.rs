//! State of the interactive forms and the intents they emit.
//!
//! The windows themselves are drawn outside the library; what lives here
//! is each form's state machine — open or closed, the text being typed,
//! the pending selection — and the closed set of intent values a form
//! hands to the session layer. Every intent is consumed by exactly one
//! session operation.

use vstd::prelude::*;
use crate::shared::CategoryColor;
use crate::text::{format_cents, money_text};

verus! {

/// An intent emitted by the category manager.
pub enum CategoryAction {
    Add(String, CategoryColor),
    Delete(String),
    UpdateColor(String, CategoryColor),
}

/// State of the category manager window.
pub struct CategoryManager {
    pub is_open: bool,
    pub new_category_input: String,
    pub new_category_color: CategoryColor,
    pub color_picker_open_for: Option<String>,
}

/// The blue a fresh category entry starts with.
pub open spec fn spec_default_new_color() -> CategoryColor {
    CategoryColor { r: 59, g: 130, b: 246 }
}

impl CategoryManager {
    /// A closed manager with an empty input.
    pub fn new() -> (r: CategoryManager)
        ensures
            !r.is_open,
            r.new_category_input@.len() == 0,
            r.new_category_color == spec_default_new_color(),
            r.color_picker_open_for is None,
    {
        CategoryManager {
            is_open: false,
            new_category_input: String::new(),
            new_category_color: CategoryColor { r: 59, g: 130, b: 246 },
            color_picker_open_for: None,
        }
    }

    /// Opens the manager with a cleared input.
    pub fn open(&mut self)
        ensures
            final(self).is_open,
            final(self).new_category_input@.len() == 0,
            final(self).new_category_color == spec_default_new_color(),
            final(self).color_picker_open_for is None,
    {
        self.is_open = true;
        self.new_category_input = String::new();
        self.new_category_color = CategoryColor { r: 59, g: 130, b: 246 };
        self.color_picker_open_for = None;
    }

    /// Closes the manager and clears the input.
    pub fn close(&mut self)
        ensures
            !final(self).is_open,
            final(self).new_category_input@.len() == 0,
            final(self).color_picker_open_for is None,
            final(self).new_category_color == old(self).new_category_color,
    {
        self.is_open = false;
        self.new_category_input = String::new();
        self.color_picker_open_for = None;
    }
}

/// State of the small add-category popup used inside the expense form.
pub struct AddCategoryPopup {
    pub is_open: bool,
    pub input: String,
    pub color: CategoryColor,
}

impl AddCategoryPopup {
    /// A closed popup with an empty input and the gray default color.
    pub fn new() -> (r: AddCategoryPopup)
        ensures
            !r.is_open,
            r.input@.len() == 0,
            r.color == crate::shared::spec_default_gray(),
    {
        AddCategoryPopup {
            is_open: false,
            input: String::new(),
            color: CategoryColor { r: 156, g: 163, b: 175 },
        }
    }

    /// Opens the popup with a cleared input and the gray default color.
    pub fn open(&mut self)
        ensures
            final(self).is_open,
            final(self).input@.len() == 0,
            final(self).color == crate::shared::spec_default_gray(),
    {
        self.is_open = true;
        self.input = String::new();
        self.color = CategoryColor { r: 156, g: 163, b: 175 };
    }

    /// Closes the popup and clears the input.
    pub fn close(&mut self)
        ensures
            !final(self).is_open,
            final(self).input@.len() == 0,
            final(self).color == old(self).color,
    {
        self.is_open = false;
        self.input = String::new();
    }
}

/// State of the income form.
pub struct IncomeForm {
    pub is_open: bool,
    pub amount: String,
    pub request_focus: bool,
}

impl IncomeForm {
    /// A closed form with an empty amount.
    pub fn new() -> (r: IncomeForm)
        ensures
            !r.is_open,
            r.amount@.len() == 0,
            !r.request_focus,
    {
        IncomeForm { is_open: false, amount: String::new(), request_focus: false }
    }

    /// Opens the form pre-filled with the current income in cents, or
    /// empty when the income is zero.
    pub fn open(&mut self, current_income: u64)
        ensures
            final(self).is_open,
            final(self).request_focus,
            current_income > 0 ==> final(self).amount@ == money_text(current_income),
            current_income == 0 ==> final(self).amount@.len() == 0,
    {
        self.is_open = true;
        self.request_focus = true;
        if current_income > 0 {
            self.amount = format_cents(current_income);
        } else {
            self.amount = String::new();
        }
    }

    /// Closes the form.
    pub fn close(&mut self)
        ensures
            !final(self).is_open,
            !final(self).request_focus,
            final(self).amount@ == old(self).amount@,
    {
        self.is_open = false;
        self.request_focus = false;
    }
}

/// An intent emitted by the profile manager.
pub enum ProfileAction {
    /// Create a new profile with the given display name.
    Create(String),
    /// Duplicate a profile: source id, new display name.
    Duplicate(String, String),
    /// Rename a profile: id, new display name.
    Rename(String, String),
    /// Delete a profile by id.
    Delete(String),
    /// Switch to a profile by id.
    Switch(String),
}

/// State of the profile manager modal.
pub struct ProfileManager {
    pub is_open: bool,
    pub new_profile_name: String,
    pub renaming_profile_id: Option<String>,
    pub renaming_name: String,
    pub confirm_delete_id: Option<String>,
}

impl ProfileManager {
    /// A closed manager with no pending rename or delete.
    pub fn new() -> (r: ProfileManager)
        ensures
            !r.is_open,
            r.new_profile_name@.len() == 0,
            r.renaming_profile_id is None,
            r.renaming_name@.len() == 0,
            r.confirm_delete_id is None,
    {
        ProfileManager {
            is_open: false,
            new_profile_name: String::new(),
            renaming_profile_id: None,
            renaming_name: String::new(),
            confirm_delete_id: None,
        }
    }

    /// Opens the manager with every pending edit cleared.
    pub fn open(&mut self)
        ensures
            final(self).is_open,
            final(self).new_profile_name@.len() == 0,
            final(self).renaming_profile_id is None,
            final(self).renaming_name@.len() == 0,
            final(self).confirm_delete_id is None,
    {
        self.is_open = true;
        self.clear_state();
    }

    /// Closes the manager with every pending edit cleared.
    pub fn close(&mut self)
        ensures
            !final(self).is_open,
            final(self).new_profile_name@.len() == 0,
            final(self).renaming_profile_id is None,
            final(self).renaming_name@.len() == 0,
            final(self).confirm_delete_id is None,
    {
        self.is_open = false;
        self.clear_state();
    }

    /// Clears the typed name and any pending rename or delete.
    pub fn clear_state(&mut self)
        ensures
            final(self).is_open == old(self).is_open,
            final(self).new_profile_name@.len() == 0,
            final(self).renaming_profile_id is None,
            final(self).renaming_name@.len() == 0,
            final(self).confirm_delete_id is None,
    {
        self.new_profile_name = String::new();
        self.renaming_profile_id = None;
        self.renaming_name = String::new();
        self.confirm_delete_id = None;
    }
}

/// An intent emitted by the profile selector dropdown.
pub enum ProfileSelectorAction {
    /// Switch to the profile with this id.
    SwitchProfile(String),
    /// Open the profile manager.
    OpenManager,
}

/// State of the profile selector dropdown.
pub struct ProfileSelector {
    pub popup_open: bool,
}

impl ProfileSelector {
    /// A selector with its popup closed.
    pub fn new() -> (r: ProfileSelector)
        ensures
            !r.popup_open,
    {
        ProfileSelector { popup_open: false }
    }

    /// Closes the popup.
    pub fn close_popup(&mut self)
        ensures
            !final(self).popup_open,
    {
        self.popup_open = false;
    }

    /// Opens the popup when it was closed and closes it when it was open.
    pub fn toggle_popup(&mut self)
        ensures
            final(self).popup_open == !old(self).popup_open,
    {
        self.popup_open = !self.popup_open;
    }

    /// Whether the popup is open.
    pub fn is_popup_open(&self) -> (r: bool)
        ensures
            r == self.popup_open,
    {
        self.popup_open
    }
}

} // verus!
