//! Slot records: the unit of data the store keeps and the editor drafts.

use vstd::prelude::*;

verus! {

/// A stored record: an identifier assigned on first commit, and five
/// text fields. A freshly created draft has `id == None` and empty
/// fields; a committed slot always carries a non-empty title.
pub struct Slot {
    pub id: Option<usize>,
    pub title: String,
    pub username: String,
    pub email: String,
    pub password: String,
    pub description: String,
}

/// The mathematical value of a `Slot`: the identifier and the five
/// text fields as character sequences.
#[verifier::ext_equal]
pub struct SlotView {
    pub id: Option<usize>,
    pub title: Seq<char>,
    pub username: Seq<char>,
    pub email: Seq<char>,
    pub password: Seq<char>,
    pub description: Seq<char>,
}

impl View for Slot {
    type V = SlotView;

    open spec fn view(&self) -> SlotView {
        SlotView {
            id: self.id,
            title: self.title@,
            username: self.username@,
            email: self.email@,
            password: self.password@,
            description: self.description@,
        }
    }
}

/// The value of a freshly created draft: no identifier, all fields empty.
pub open spec fn empty_slot_view() -> SlotView {
    SlotView {
        id: None,
        title: Seq::empty(),
        username: Seq::empty(),
        email: Seq::empty(),
        password: Seq::empty(),
        description: Seq::empty(),
    }
}

impl Default for Slot {
    /// A fresh draft: no identifier, all fields empty.
    fn default() -> (r: Self)
        ensures
            r@ == empty_slot_view(),
    {
        let r = Slot {
            id: None,
            title: String::new(),
            username: String::new(),
            email: String::new(),
            password: String::new(),
            description: String::new(),
        };
        proof {
            assert(r@ =~= empty_slot_view());
        }
        r
    }
}

impl Clone for Slot {
    /// A field-for-field copy.
    fn clone(&self) -> (r: Self)
        ensures
            r == *self,
    {
        Slot {
            id: self.id,
            title: self.title.clone(),
            username: self.username.clone(),
            email: self.email.clone(),
            password: self.password.clone(),
            description: self.description.clone(),
        }
    }
}

/// Names the editable text fields of a slot.
#[derive(Clone, Copy, PartialEq, Eq, Structural)]
pub enum SlotField {
    Title,
    Username,
    Email,
    Password,
    Description,
}

/// `v` with the named field replaced by `text`.
pub open spec fn with_field(v: SlotView, field: SlotField, text: Seq<char>) -> SlotView {
    match field {
        SlotField::Title => SlotView { title: text, ..v },
        SlotField::Username => SlotView { username: text, ..v },
        SlotField::Email => SlotView { email: text, ..v },
        SlotField::Password => SlotView { password: text, ..v },
        SlotField::Description => SlotView { description: text, ..v },
    }
}

impl Slot {
    /// Replaces the named text field with `text`; the identifier and the
    /// other fields are untouched.
    pub fn set_field(&mut self, field: SlotField, text: String)
        ensures
            final(self)@ == with_field(old(self)@, field, text@),
    {
        match field {
            SlotField::Title => self.title = text,
            SlotField::Username => self.username = text,
            SlotField::Email => self.email = text,
            SlotField::Password => self.password = text,
            SlotField::Description => self.description = text,
        }
        proof {
            assert(self@ =~= with_field(old(self)@, field, text@));
        }
    }
}

} // verus!
