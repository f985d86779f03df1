//! The edit session state machine: viewing vs. editing a draft, and
//! how a commit writes the draft back into the store.

use vstd::prelude::*;

use crate::keys::dec_str;
use crate::slot::{empty_slot_view, with_field, Slot, SlotField, SlotView};
use crate::store::{committed, store_wf, CommitError, SlotStore};

verus! {

/// What is being edited: a draft not yet persisted, or a working copy
/// of an already-persisted slot (carrying that slot's identifier).
pub enum EditModes {
    New(Slot),
    Prev(Slot),
}

/// The UI-visible state: idle, or editing a draft.
pub enum AppModes {
    View,
    Edit(EditModes),
}

/// The mathematical value of a mode: the edit-session states, with the
/// draft flattened to its view.
#[verifier::ext_equal]
pub enum ModeView {
    Viewing,
    EditingNew(SlotView),
    EditingExisting(SlotView),
}

impl View for AppModes {
    type V = ModeView;

    open spec fn view(&self) -> ModeView {
        match self {
            AppModes::View => ModeView::Viewing,
            AppModes::Edit(EditModes::New(d)) => ModeView::EditingNew(d@),
            AppModes::Edit(EditModes::Prev(d)) => ModeView::EditingExisting(d@),
        }
    }
}

/// The whole application state: the current mode and the slot store.
pub struct TemplateApp {
    pub mode: AppModes,
    pub slots: SlotStore,
}

/// The mathematical value of the application state.
#[verifier::ext_equal]
pub struct AppView {
    pub mode: ModeView,
    pub slots: Seq<SlotView>,
}

impl View for TemplateApp {
    type V = AppView;

    open spec fn view(&self) -> AppView {
        AppView { mode: self.mode@, slots: self.slots@ }
    }
}

/// Well-formedness of the whole application state: the store invariant
/// holds, and a draft of an existing slot carries an identifier that
/// names a present entry.
pub open spec fn app_wf(s: AppView) -> bool {
    &&& store_wf(s.slots)
    &&& (s.mode matches ModeView::EditingExisting(d) ==> d.id matches Some(i) && (i as int)
        < s.slots.len())
}

/// Entering the editor on a fresh, empty draft.
pub open spec fn spec_create_new(s: AppView) -> AppView {
    AppView { mode: ModeView::EditingNew(empty_slot_view()), ..s }
}

/// Entering the editor on a value copy of the stored slot at position `i`.
pub open spec fn spec_select(s: AppView, i: int) -> AppView
    recommends
        0 <= i < s.slots.len(),
{
    AppView { mode: ModeView::EditingExisting(s.slots[i]), ..s }
}

/// Leaving the editor; the draft is discarded and the store untouched.
pub open spec fn spec_cancel(s: AppView) -> AppView {
    AppView { mode: ModeView::Viewing, ..s }
}

/// Replacing one text field of the active draft; outside the editor
/// nothing changes, and the store is never touched.
pub open spec fn spec_edit_field(s: AppView, field: SlotField, text: Seq<char>) -> AppView {
    match s.mode {
        ModeView::Viewing => s,
        ModeView::EditingNew(d) => AppView {
            mode: ModeView::EditingNew(with_field(d, field, text)),
            ..s
        },
        ModeView::EditingExisting(d) => AppView {
            mode: ModeView::EditingExisting(with_field(d, field, text)),
            ..s
        },
    }
}

/// Committing the active draft.
///
/// A new draft with a non-empty title is appended under the next key;
/// a draft of an existing slot overwrites the entry its identifier
/// names. An empty title, a missing identifier, or an identifier with
/// no matching entry leaves the state exactly as it was.
pub open spec fn spec_save(s: AppView) -> AppView {
    match s.mode {
        ModeView::Viewing => s,
        ModeView::EditingNew(d) => if d.title.len() == 0 {
            s
        } else {
            AppView {
                mode: ModeView::Viewing,
                slots: s.slots.push(committed(d, s.slots.len() as usize)),
            }
        },
        ModeView::EditingExisting(d) => if d.title.len() == 0 {
            s
        } else {
            match d.id {
                Some(i) => if (i as int) < s.slots.len() {
                    AppView {
                        mode: ModeView::Viewing,
                        slots: s.slots.update(i as int, committed(d, i)),
                    }
                } else {
                    s
                },
                None => s,
            }
        },
    }
}

/// What a commit reports: success, or which condition refused it.
pub open spec fn spec_save_result(s: AppView) -> Result<(), CommitError> {
    match s.mode {
        ModeView::Viewing => Err(CommitError::NotEditing),
        ModeView::EditingNew(d) => if d.title.len() == 0 {
            Err(CommitError::EmptyTitle)
        } else {
            Ok(())
        },
        ModeView::EditingExisting(d) => if d.title.len() == 0 {
            Err(CommitError::EmptyTitle)
        } else if d.id matches Some(i) && (i as int) < s.slots.len() {
            Ok(())
        } else {
            Err(CommitError::DanglingId)
        },
    }
}

impl TemplateApp {
    /// Well-formedness of this application state.
    pub open spec fn wf(self) -> bool {
        app_wf(self@)
    }

    /// Starts editing a fresh, empty draft, from any mode; the store is
    /// untouched.
    pub fn create_new(&mut self)
        ensures
            final(self)@ == spec_create_new(old(self)@),
            old(self).wf() ==> final(self).wf(),
    {
        self.mode = AppModes::Edit(EditModes::New(Slot::default()));
        proof {
            assert(self@ =~= spec_create_new(old(self)@));
        }
    }

    /// Starts editing a value copy of the stored slot whose key is
    /// `key`, from any mode. When no entry has that key, the state is
    /// left as it was and `None` is returned; otherwise the entry's
    /// position is returned.
    pub fn select_slot(&mut self, key: &str) -> (r: Option<usize>)
        ensures
            match r {
                Some(i) => i < old(self)@.slots.len() && dec_str(i as nat) == key@ && final(self)@
                    == spec_select(old(self)@, i as int),
                None => final(self)@ == old(self)@ && forall|i: int|
                    0 <= i < old(self)@.slots.len() ==> #[trigger] dec_str(i as nat) != key@,
            },
            old(self).wf() ==> final(self).wf(),
    {
        match self.slots.find_key(key) {
            Some(i) => {
                let copy = self.slots.get_at(i).clone();
                self.mode = AppModes::Edit(EditModes::Prev(copy));
                proof {
                    assert(self@ =~= spec_select(old(self)@, i as int));
                }
                Some(i)
            },
            None => None,
        }
    }

    /// Replaces one text field of the active draft. Outside the editor
    /// this is a no-op; the store is never touched. Returns whether a
    /// draft was being edited.
    pub fn edit_field(&mut self, field: SlotField, text: String) -> (r: bool)
        ensures
            final(self)@ == spec_edit_field(old(self)@, field, text@),
            r == !(old(self)@.mode is Viewing),
            old(self).wf() ==> final(self).wf(),
    {
        let mut mode = AppModes::View;
        core::mem::swap(&mut mode, &mut self.mode);
        match mode {
            AppModes::View => {
                self.mode = AppModes::View;
                proof {
                    assert(self@ =~= spec_edit_field(old(self)@, field, text@));
                }
                false
            },
            AppModes::Edit(EditModes::New(mut d)) => {
                d.set_field(field, text);
                self.mode = AppModes::Edit(EditModes::New(d));
                proof {
                    assert(self@ =~= spec_edit_field(old(self)@, field, text@));
                }
                true
            },
            AppModes::Edit(EditModes::Prev(mut d)) => {
                d.set_field(field, text);
                self.mode = AppModes::Edit(EditModes::Prev(d));
                proof {
                    assert(self@ =~= spec_edit_field(old(self)@, field, text@));
                }
                true
            },
        }
    }

    /// Leaves the editor, discarding the draft; the store is untouched.
    pub fn cancel(&mut self)
        ensures
            final(self)@ == spec_cancel(old(self)@),
            old(self).wf() ==> final(self).wf(),
    {
        self.mode = AppModes::View;
        proof {
            assert(self@ =~= spec_cancel(old(self)@));
        }
    }

    /// Rebuilds an application state from a persisted snapshot,
    /// accepting it exactly when it is well-formed; on a rejected
    /// snapshot the caller falls back to the default state.
    pub fn from_parts(mode: AppModes, slots: Vec<Slot>) -> (r: Option<TemplateApp>)
        ensures
            ({
                let v = AppView { mode: mode@, slots: slots@.map_values(|s: Slot| s@) };
                match r {
                    Some(app) => app@ == v && app.wf(),
                    None => !app_wf(v),
                }
            }),
    {
        let ghost v = AppView { mode: mode@, slots: slots@.map_values(|s: Slot| s@) };
        let n = slots.len();
        for i in 0..n
            invariant
                n == slots.len(),
                v.slots == slots@.map_values(|s: Slot| s@),
                forall|j: int|
                    0 <= j < i ==> (#[trigger] v.slots[j]).id == Some(j as usize)
                        && v.slots[j].title.len() > 0,
        {
            let id_ok = match slots[i].id {
                Some(id) => id == i,
                None => false,
            };
            if !id_ok || slots[i].title.as_str().is_empty() {
                proof {
                    assert(v.slots[i as int] == slots@[i as int]@);
                    assert(!(v.slots[i as int].id == Some(i as usize)
                        && v.slots[i as int].title.len() > 0));
                    assert(!store_wf(v.slots));
                }
                return None;
            }
        }
        let mode_ok = match &mode {
            AppModes::Edit(EditModes::Prev(d)) => match d.id {
                Some(id) => id < n,
                None => false,
            },
            _ => true,
        };
        if !mode_ok {
            return None;
        }
        let app = TemplateApp { mode, slots: SlotStore { slots } };
        proof {
            assert(app@ =~= v);
        }
        Some(app)
    }

    /// Commits the active draft into the store, as `spec_save`
    /// describes, and reports which condition refused the commit, if
    /// any. On a well-formed state the dangling-identifier refusal
    /// cannot occur.
    pub fn save(&mut self) -> (r: Result<(), CommitError>)
        ensures
            final(self)@ == spec_save(old(self)@),
            r == spec_save_result(old(self)@),
            old(self).wf() ==> final(self).wf() && r != Err::<(), CommitError>(
                CommitError::DanglingId,
            ),
    {
        let mut mode = AppModes::View;
        core::mem::swap(&mut mode, &mut self.mode);
        match mode {
            AppModes::View => {
                self.mode = AppModes::View;
                Err(CommitError::NotEditing)
            },
            AppModes::Edit(EditModes::New(d)) => {
                if d.title.as_str().is_empty() {
                    self.mode = AppModes::Edit(EditModes::New(d));
                    proof {
                        assert(self@ =~= old(self)@);
                    }
                    Err(CommitError::EmptyTitle)
                } else {
                    self.slots.insert_new(&d);
                    self.mode = AppModes::View;
                    proof {
                        assert(self@ =~= spec_save(old(self)@));
                    }
                    Ok(())
                }
            },
            AppModes::Edit(EditModes::Prev(d)) => {
                if d.title.as_str().is_empty() {
                    self.mode = AppModes::Edit(EditModes::Prev(d));
                    proof {
                        assert(self@ =~= old(self)@);
                    }
                    Err(CommitError::EmptyTitle)
                } else {
                    match d.id {
                        Some(id) => {
                            match self.slots.update_existing(id, &d) {
                                Ok(()) => {
                                    self.mode = AppModes::View;
                                    proof {
                                        assert(self@ =~= spec_save(old(self)@));
                                    }
                                    Ok(())
                                },
                                Err(e) => {
                                    self.mode = AppModes::Edit(EditModes::Prev(d));
                                    proof {
                                        assert(self@ =~= old(self)@);
                                    }
                                    Err(e)
                                },
                            }
                        },
                        None => {
                            self.mode = AppModes::Edit(EditModes::Prev(d));
                            proof {
                                assert(self@ =~= old(self)@);
                            }
                            Err(CommitError::DanglingId)
                        },
                    }
                }
            },
        }
    }
}

/// Law: committing a new draft with a non-empty title appends exactly
/// one entry — the draft's fields under the next identifier — leaves
/// every earlier entry as it was, and returns to viewing.
pub proof fn lemma_save_new_grows(s: AppView, d: SlotView)
    requires
        s.mode == ModeView::EditingNew(d),
        d.title.len() > 0,
    ensures
        spec_save(s).slots.len() == s.slots.len() + 1,
        spec_save(s).mode == ModeView::Viewing,
        spec_save(s).slots[s.slots.len() as int] == committed(d, s.slots.len() as usize),
        forall|i: int| 0 <= i < s.slots.len() ==> spec_save(s).slots[i] == s.slots[i],
        spec_save_result(s) == Ok::<(), CommitError>(()),
{
}

/// Law: committing any draft whose title is empty changes neither the
/// store nor the mode; the commit reports the empty title.
pub proof fn lemma_save_empty_title_no_op(s: AppView, d: SlotView)
    requires
        s.mode == ModeView::EditingNew(d) || s.mode == ModeView::EditingExisting(d),
        d.title.len() == 0,
    ensures
        spec_save(s) == s,
        spec_save_result(s) == Err::<(), CommitError>(CommitError::EmptyTitle),
{
}

/// Law: selecting an existing slot and then cancelling leaves the
/// store exactly as it was.
pub proof fn lemma_select_cancel_store_unchanged(s: AppView, i: int)
    requires
        0 <= i < s.slots.len(),
    ensures
        spec_cancel(spec_select(s, i)).slots == s.slots,
{
}

/// Law: on a well-formed state, selecting an existing slot, replacing
/// one of its fields, and committing updates exactly that entry — its
/// one field replaced, its identifier kept — and no other entry, and
/// returns to viewing.
pub proof fn lemma_select_edit_save_updates_one(
    s: AppView,
    i: int,
    field: SlotField,
    text: Seq<char>,
)
    requires
        app_wf(s),
        s.slots.len() <= usize::MAX,
        0 <= i < s.slots.len(),
        field == SlotField::Title ==> text.len() > 0,
    ensures
        ({
            let after = spec_save(spec_edit_field(spec_select(s, i), field, text));
            &&& after.mode == ModeView::Viewing
            &&& after.slots.len() == s.slots.len()
            &&& after.slots[i] == committed(with_field(s.slots[i], field, text), i as usize)
            &&& forall|j: int| 0 <= j < s.slots.len() && j != i ==> after.slots[j] == s.slots[j]
        }),
{
    assert(s.slots[i].id == Some(i as usize) && s.slots[i].title.len() > 0);
}

impl Default for TemplateApp {
    /// The initial state: viewing, with an empty store.
    fn default() -> (r: Self)
        ensures
            r@ == (AppView { mode: ModeView::Viewing, slots: Seq::<SlotView>::empty() }),
            r.wf(),
    {
        let r = TemplateApp { mode: AppModes::View, slots: SlotStore::new() };
        proof {
            assert(r@ =~= AppView { mode: ModeView::Viewing, slots: Seq::<SlotView>::empty() });
        }
        r
    }
}

} // verus!
