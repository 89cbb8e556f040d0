use vstd::prelude::*;
use vstd::string::StringExecFns;
use crate::entry::Entry;
use crate::order::{is_sorted, sort_catalog};
use crate::keys::Command;
use crate::paths::{shown_path, shown_path_of};
use crate::preview::{no_files_text, preview_of, preview_text};

verus! {

/// The selection state over a fixed catalog of entries.
pub struct Session {
    entries: Vec<Entry>,
    selected: Vec<bool>,
    cursor: usize,
    preview: String,
    show_preview: bool,
}

/// A session as plain values.
pub struct SessionView {
    pub entries: Seq<Entry>,
    pub selected: Seq<bool>,
    pub cursor: nat,
    pub preview: Seq<char>,
    pub show_preview: bool,
}

impl View for Session {
    type V = SessionView;

    closed spec fn view(&self) -> SessionView {
        SessionView {
            entries: self.entries@,
            selected: self.selected@,
            cursor: self.cursor as nat,
            preview: self.preview@,
            show_preview: self.show_preview,
        }
    }
}

impl SessionView {
    /// One flag per entry; the cursor is on an entry whenever there is one;
    /// an empty catalog shows the placeholder preview.
    pub open spec fn wf(self) -> bool {
        &&& self.selected.len() == self.entries.len()
        &&& self.entries.len() > 0 ==> self.cursor < self.entries.len()
        &&& self.entries.len() == 0 ==> self.cursor == 0 && self.preview == no_files_text()
    }

    pub open spec fn len(self) -> nat {
        self.entries.len()
    }
}

/// The index above `c`, wrapping from the first to the last.
pub open spec fn up_index(c: nat, len: nat) -> nat {
    if c == 0 { (len - 1) as nat } else { (c - 1) as nat }
}

/// The index below `c`, wrapping from the last to the first.
pub open spec fn down_index(c: nat, len: nat) -> nat {
    (c + 1) % (len as int) as nat
}

/// `len` flags, all equal to `b`.
pub open spec fn all_flags(len: nat, b: bool) -> Seq<bool> {
    Seq::new(len, |k: int| b)
}

/// `len` flags, of which only the one at `idx` is set.
pub open spec fn only_flag(len: nat, idx: nat) -> Seq<bool> {
    Seq::new(len, |k: int| k == idx)
}

/// The flags with the one at `c` flipped.
pub open spec fn toggled(s: Seq<bool>, c: nat) -> Seq<bool> {
    s.update(c as int, !s[c as int])
}

/// How many flags are set.
pub open spec fn count_selected(s: Seq<bool>) -> nat
    decreases s.len(),
{
    if s.len() == 0 {
        0
    } else {
        count_selected(s.drop_last()) + if s.last() { 1nat } else { 0nat }
    }
}

/// The paths of the entries whose flag is set, in catalog order.
pub open spec fn selected_paths_of(entries: Seq<Entry>, sel: Seq<bool>) -> Seq<Seq<char>>
    decreases entries.len(),
{
    if entries.len() == 0 {
        Seq::empty()
    } else {
        let rest = selected_paths_of(entries.drop_last(), sel.subrange(0, entries.len() - 1));
        if sel[entries.len() - 1] {
            rest.push(entries.last()@.path)
        } else {
            rest
        }
    }
}

/// The index that `select_only` lands on: `n`, or the last index if `n` is
/// past it.
pub open spec fn clamp_index(n: nat, len: nat) -> nat {
    if n < len { n } else { (len - 1) as nat }
}

pub open spec fn after_up(v: SessionView) -> SessionView {
    if v.len() == 0 { v } else { SessionView { cursor: up_index(v.cursor, v.len()), ..v } }
}

pub open spec fn after_down(v: SessionView) -> SessionView {
    if v.len() == 0 { v } else { SessionView { cursor: down_index(v.cursor, v.len()), ..v } }
}

pub open spec fn after_toggle(v: SessionView) -> SessionView {
    if v.len() == 0 { v } else { SessionView { selected: toggled(v.selected, v.cursor), ..v } }
}

pub open spec fn after_select_all(v: SessionView) -> SessionView {
    SessionView { selected: all_flags(v.len(), true), ..v }
}

pub open spec fn after_select_none(v: SessionView) -> SessionView {
    SessionView { selected: all_flags(v.len(), false), ..v }
}

pub open spec fn after_select_only(v: SessionView, n: nat) -> SessionView {
    if v.len() == 0 {
        v
    } else {
        SessionView {
            selected: only_flag(v.len(), clamp_index(n, v.len())),
            cursor: clamp_index(n, v.len()),
            ..v
        }
    }
}

pub open spec fn after_toggle_preview(v: SessionView) -> SessionView {
    SessionView { show_preview: !v.show_preview, ..v }
}

/// The exit status for a confirmed selection.
pub const CONFIRM_EXIT: i32 = 0;

/// The exit status for a cancelled selection, the POSIX "interrupted" code.
pub const CANCEL_EXIT: i32 = 130;

/// What the driving loop does after a command.
#[derive(Clone, Copy, PartialEq, Eq, Structural, Debug)]
pub enum Outcome {
    /// Go on reading keys.
    Continue,
    /// The cursor was placed anew: load the preview of the entry under it,
    /// then go on.
    Reload,
    /// Stop and print the selected paths.
    Confirmed,
    /// Stop without printing anything.
    Cancelled,
}

impl Outcome {
    /// The process's exit status once the loop stops.
    pub fn exit_code(self) -> (r: Option<i32>)
        ensures
            r == match self {
                Outcome::Confirmed => Some(CONFIRM_EXIT),
                Outcome::Cancelled => Some(CANCEL_EXIT),
                _ => None::<i32>,
            },
    {
        match self {
            Outcome::Confirmed => Some(CONFIRM_EXIT),
            Outcome::Cancelled => Some(CANCEL_EXIT),
            _ => None,
        }
    }
}

/// The session after a command.
pub open spec fn after_command(v: SessionView, cmd: Command) -> SessionView {
    match cmd {
        Command::MoveUp => after_up(v),
        Command::MoveDown => after_down(v),
        Command::ToggleCurrent => after_toggle(v),
        Command::SelectAll => after_select_all(v),
        Command::SelectNone => after_select_none(v),
        Command::SelectOnly(n) => after_select_only(v, n as nat),
        Command::SelectLast => if v.len() == 0 { v } else { after_select_only(v, (v.len() - 1) as nat) },
        Command::TogglePreview => after_toggle_preview(v),
        Command::Confirm | Command::Cancel | Command::Nothing => v,
    }
}

/// What the loop does after a command.
pub open spec fn outcome_of(v: SessionView, cmd: Command) -> Outcome {
    match cmd {
        Command::Confirm => Outcome::Confirmed,
        Command::Cancel => Outcome::Cancelled,
        Command::MoveUp | Command::MoveDown | Command::SelectOnly(_) | Command::SelectLast => {
            if v.len() > 0 { Outcome::Reload } else { Outcome::Continue }
        },
        _ => Outcome::Continue,
    }
}

/// The line that shows an entry: a selection mark and the name.
pub open spec fn entry_line(name: Seq<char>, selected: bool) -> Seq<char> {
    " ["@ + (if selected { "\u{2713}"@ } else { " "@ }) + "] "@ + name
}

/// The title of the preview pane: the name of the entry under the cursor.
pub open spec fn preview_title_of(v: SessionView) -> Seq<char> {
    if v.len() == 0 {
        "Preview"@
    } else {
        "Preview: "@ + v.entries[v.cursor as int]@.name
    }
}

pub(crate) proof fn lemma_count_all(len: nat, b: bool)
    ensures
        count_selected(all_flags(len, b)) == if b { len } else { 0 },
    decreases len,
{
    if len > 0 {
        assert(all_flags(len, b).drop_last() =~= all_flags((len - 1) as nat, b));
        lemma_count_all((len - 1) as nat, b);
    }
}

pub(crate) proof fn lemma_count_only(len: nat, idx: nat)
    ensures
        count_selected(only_flag(len, idx)) == if idx < len { 1nat } else { 0nat },
    decreases len,
{
    if len > 0 {
        assert(only_flag(len, idx).drop_last() =~= only_flag((len - 1) as nat, idx));
        lemma_count_only((len - 1) as nat, idx);
    }
}

impl Session {
    pub open spec fn wf(&self) -> bool {
        self@.wf()
    }

    /// A session over the entries in catalog order, with nothing selected,
    /// the cursor on the first entry and the preview pane shown. With no
    /// entries the preview is the placeholder; otherwise it is empty until
    /// `load_preview` is given the first entry's file.
    pub fn new(items: Vec<Entry>) -> (r: Session)
        ensures
            r.wf(),
            is_sorted(r@.entries),
            r@.entries.to_multiset() == items@.to_multiset(),
            r@.selected == all_flags(items@.len(), false),
            r@.cursor == 0,
            r@.show_preview,
            r@.preview == if items@.len() == 0 { no_files_text() } else { Seq::empty() },
    {
        let entries = sort_catalog(items);
        proof {
            entries@.to_multiset_ensures();
            items@.to_multiset_ensures();
        }
        let selected = Self::flags(entries.len(), false);
        let preview = if entries.len() == 0 {
            String::from_str("no files available")
        } else {
            String::new()
        };
        Session { entries, selected, cursor: 0, preview, show_preview: true }
    }

    fn flags(len: usize, b: bool) -> (r: Vec<bool>)
        ensures
            r@ == all_flags(len as nat, b),
    {
        let mut r: Vec<bool> = Vec::new();
        while r.len() < len
            invariant
                r@.len() <= len,
                r@ =~= all_flags(r@.len(), b),
            decreases len - r@.len(),
        {
            r.push(b);
        }
        r
    }

    /// The number of entries.
    pub fn len(&self) -> (r: usize)
        ensures
            r == self@.len(),
    {
        self.entries.len()
    }

    /// The entry at index `i`.
    pub fn entry(&self, i: usize) -> (r: &Entry)
        requires
            i < self@.len(),
        ensures
            *r == self@.entries[i as int],
    {
        &self.entries[i]
    }

    /// Whether the entry at index `i` is selected.
    pub fn is_selected(&self, i: usize) -> (r: bool)
        requires
            self.wf(),
            i < self@.len(),
        ensures
            r == self@.selected[i as int],
    {
        self.selected[i]
    }

    pub fn cursor(&self) -> (r: usize)
        ensures
            r == self@.cursor,
    {
        self.cursor
    }

    pub fn preview(&self) -> (r: &String)
        ensures
            r@ == self@.preview,
    {
        &self.preview
    }

    pub fn show_preview(&self) -> (r: bool)
        ensures
            r == self@.show_preview,
    {
        self.show_preview
    }

    /// The path of the entry under the cursor, whose file the preview shows.
    pub fn current_path(&self) -> (r: Option<String>)
        requires
            self.wf(),
        ensures
            self@.len() == 0 ==> r is None,
            self@.len() > 0 ==> r is Some && r->0@ == self@.entries[self@.cursor as int]@.path,
    {
        if self.entries.len() == 0 {
            None
        } else {
            Some(self.entries[self.cursor].path().clone())
        }
    }

    /// Sets the preview from the outcome of reading the file under the
    /// cursor as text. With no entries the placeholder stays.
    pub fn load_preview(&mut self, read: Result<String, String>)
        requires
            old(self).wf(),
        ensures
            final(self).wf(),
            final(self)@ == (SessionView {
                preview: if old(self)@.len() == 0 { no_files_text() } else { preview_of(read) },
                ..old(self)@
            }),
    {
        if self.entries.len() > 0 {
            self.preview = preview_text(read);
        }
    }

    /// Moves the cursor up, wrapping to the last entry; nothing happens
    /// without entries. The preview is then to be reloaded.
    pub fn move_up(&mut self)
        requires
            old(self).wf(),
        ensures
            final(self).wf(),
            final(self)@ == after_up(old(self)@),
    {
        if self.entries.len() == 0 {
            return;
        }
        if self.cursor == 0 {
            self.cursor = self.entries.len() - 1;
        } else {
            self.cursor = self.cursor - 1;
        }
    }

    /// Moves the cursor down, wrapping to the first entry; nothing happens
    /// without entries. The preview is then to be reloaded.
    pub fn move_down(&mut self)
        requires
            old(self).wf(),
        ensures
            final(self).wf(),
            final(self)@ == after_down(old(self)@),
    {
        if self.entries.len() == 0 {
            return;
        }
        self.cursor = (self.cursor + 1) % self.entries.len();
    }

    /// Flips the selection of the entry under the cursor.
    pub fn toggle_current(&mut self)
        requires
            old(self).wf(),
        ensures
            final(self).wf(),
            final(self)@ == after_toggle(old(self)@),
    {
        if self.entries.len() == 0 {
            return;
        }
        let b = self.selected[self.cursor];
        self.selected.set(self.cursor, !b);
    }

    /// Selects every entry.
    pub fn select_all(&mut self)
        requires
            old(self).wf(),
        ensures
            final(self).wf(),
            final(self)@ == after_select_all(old(self)@),
    {
        self.selected = Self::flags(self.entries.len(), true);
    }

    /// Clears every selection.
    pub fn select_none(&mut self)
        requires
            old(self).wf(),
        ensures
            final(self).wf(),
            final(self)@ == after_select_none(old(self)@),
    {
        self.selected = Self::flags(self.entries.len(), false);
    }

    /// Selects the entry at `n`, or the last one if `n` is past it, and
    /// nothing else, and moves the cursor there. Nothing happens without
    /// entries. The preview is then to be reloaded.
    pub fn select_only_n(&mut self, n: usize)
        requires
            old(self).wf(),
        ensures
            final(self).wf(),
            final(self)@ == after_select_only(old(self)@, n as nat),
    {
        let len = self.entries.len();
        if len == 0 {
            return;
        }
        let idx = if n < len { n } else { len - 1 };
        let mut r: Vec<bool> = Vec::new();
        while r.len() < len
            invariant
                r@.len() <= len,
                r@ =~= only_flag(r@.len(), idx as nat),
            decreases len - r@.len(),
        {
            r.push(r.len() == idx);
        }
        self.selected = r;
        self.cursor = idx;
    }

    /// Shows or hides the preview pane.
    pub fn toggle_preview(&mut self)
        requires
            old(self).wf(),
        ensures
            final(self).wf(),
            final(self)@ == after_toggle_preview(old(self)@),
    {
        self.show_preview = !self.show_preview;
    }

    /// The number of selected entries.
    pub fn selected_count(&self) -> (r: usize)
        requires
            self.wf(),
        ensures
            r == count_selected(self@.selected),
    {
        let mut n: usize = 0;
        let mut i: usize = 0;
        while i < self.selected.len()
            invariant
                i <= self.selected@.len(),
                n == count_selected(self.selected@.subrange(0, i as int)),
                n <= i,
            decreases self.selected@.len() - i,
        {
            assert(self.selected@.subrange(0, i + 1).drop_last() =~= self.selected@.subrange(0, i as int));
            if self.selected[i] {
                n = n + 1;
            }
            i = i + 1;
        }
        assert(self.selected@.subrange(0, i as int) =~= self.selected@);
        n
    }

    /// The paths of the selected entries, in catalog order.
    pub fn selected_paths(&self) -> (r: Vec<String>)
        requires
            self.wf(),
        ensures
            r@.map_values(|s: String| s@) == selected_paths_of(self@.entries, self@.selected),
    {
        let mut r: Vec<String> = Vec::new();
        let mut i: usize = 0;
        while i < self.entries.len()
            invariant
                i <= self.entries@.len(),
                self.selected@.len() == self.entries@.len(),
                r@.map_values(|s: String| s@) == selected_paths_of(
                    self.entries@.subrange(0, i as int),
                    self.selected@.subrange(0, i as int),
                ),
            decreases self.entries@.len() - i,
        {
            let ghost es = self.entries@.subrange(0, i + 1);
            let ghost ss = self.selected@.subrange(0, i + 1);
            assert(es.drop_last() =~= self.entries@.subrange(0, i as int));
            assert(ss.subrange(0, i as int) =~= self.selected@.subrange(0, i as int));
            if self.selected[i] {
                let ghost prev = r@;
                r.push(self.entries[i].path().clone());
                assert(r@.map_values(|s: String| s@) =~= prev.map_values(|s: String| s@).push(
                    self.entries@[i as int]@.path,
                ));
            }
            i = i + 1;
        }
        assert(self.entries@.subrange(0, i as int) =~= self.entries@);
        assert(self.selected@.subrange(0, i as int) =~= self.selected@);
        r
    }

    /// Carries out a command and says what the loop does next.
    pub fn apply(&mut self, cmd: Command) -> (r: Outcome)
        requires
            old(self).wf(),
        ensures
            final(self).wf(),
            final(self)@ == after_command(old(self)@, cmd),
            r == outcome_of(old(self)@, cmd),
    {
        let len = self.entries.len();
        match cmd {
            Command::MoveUp => self.move_up(),
            Command::MoveDown => self.move_down(),
            Command::ToggleCurrent => self.toggle_current(),
            Command::SelectAll => self.select_all(),
            Command::SelectNone => self.select_none(),
            Command::SelectOnly(n) => self.select_only_n(n),
            Command::SelectLast => {
                if len > 0 {
                    self.select_only_n(len - 1);
                }
            },
            Command::TogglePreview => self.toggle_preview(),
            Command::Confirm => {
                return Outcome::Confirmed;
            },
            Command::Cancel => {
                return Outcome::Cancelled;
            },
            Command::Nothing => {},
        }
        match cmd {
            Command::MoveUp | Command::MoveDown | Command::SelectOnly(_) | Command::SelectLast => {
                if len > 0 {
                    Outcome::Reload
                } else {
                    Outcome::Continue
                }
            },
            _ => Outcome::Continue,
        }
    }

    /// The line that shows the entry at index `i`.
    pub fn line(&self, i: usize) -> (r: String)
        requires
            self.wf(),
            i < self@.len(),
        ensures
            r@ == entry_line(self@.entries[i as int]@.name, self@.selected[i as int]),
    {
        let mut r = String::from_str(" [");
        if self.selected[i] {
            r.append("\u{2713}");
        } else {
            r.append(" ");
        }
        r.append("] ");
        r.append(self.entries[i].name().as_str());
        proof {
            assert(r@ =~= entry_line(self@.entries[i as int]@.name, self@.selected[i as int]));
        }
        r
    }

    /// The title of the preview pane.
    pub fn preview_title(&self) -> (r: String)
        requires
            self.wf(),
        ensures
            r@ == preview_title_of(self@),
    {
        if self.entries.len() == 0 {
            String::from_str("Preview")
        } else {
            let mut r = String::from_str("Preview: ");
            r.append(self.entries[self.cursor].name().as_str());
            r
        }
    }

    /// The lines printed on confirmation: each selected path, in catalog
    /// order, relative to the working directory where it can be.
    pub fn output_lines(&self) -> (r: Vec<String>)
        requires
            self.wf(),
        ensures
            r@.map_values(|s: String| s@) == selected_paths_of(self@.entries, self@.selected).map_values(
                |p: Seq<char>| shown_path_of(p),
            ),
    {
        let paths = self.selected_paths();
        let ghost want = selected_paths_of(self@.entries, self@.selected);
        let mut r: Vec<String> = Vec::new();
        let mut i: usize = 0;
        while i < paths.len()
            invariant
                i <= paths@.len(),
                paths@.map_values(|s: String| s@) == want,
                r@.len() == i,
                forall|k: int| 0 <= k < i ==> (#[trigger] r@[k])@ == shown_path_of(want[k]),
            decreases paths@.len() - i,
        {
            assert(want[i as int] == paths@[i as int]@);
            let s = shown_path(&paths[i]);
            r.push(s);
            i = i + 1;
        }
        assert(r@.map_values(|s: String| s@) =~= want.map_values(|p: Seq<char>| shown_path_of(p)));
        r
    }
}

} // verus!
