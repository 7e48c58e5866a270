//! What the window of the application shows: the list of games, the row
//! that is selected, and which of the three dialogs are open.
//!
//! Nothing is drawn here. The toolkit reports what was clicked, and these
//! functions say what the window shows next.

use crate::db::{Db, Game, GameView};
use crate::table::{row_view, views, Row};
use vstd::prelude::*;

verus! {

/// One of the three dialogs, and the menu entry that opens it.
#[derive(Debug, Clone, Copy, PartialEq, Eq)]
pub enum Dialog {
    AddGame,
    EditGame,
    RemoveGame,
}

/// What the window shows, as plain values.
pub struct GuiView {
    pub items: Seq<GameView>,
    pub selected: Option<int>,
    pub add_open: bool,
    pub edit_open: bool,
    pub remove_open: bool,
}

impl GuiView {
    /// Whether the dialog is open.
    pub open spec fn is_open(self, dialog: Dialog) -> bool {
        match dialog {
            Dialog::AddGame => self.add_open,
            Dialog::EditGame => self.edit_open,
            Dialog::RemoveGame => self.remove_open,
        }
    }

    /// The same window with the dialog open or closed.
    pub open spec fn with_dialog(self, dialog: Dialog, open: bool) -> GuiView {
        match dialog {
            Dialog::AddGame => GuiView { add_open: open, ..self },
            Dialog::EditGame => GuiView { edit_open: open, ..self },
            Dialog::RemoveGame => GuiView { remove_open: open, ..self },
        }
    }

    /// Whether a click on the menu entry of the dialog opens it: adding a
    /// game is always possible, editing and removing need a selected row.
    pub open spec fn can_open(self, dialog: Dialog) -> bool {
        dialog == Dialog::AddGame || self.selected is Some
    }

    /// A row is selected only if the list has it.
    pub open spec fn wf(self) -> bool {
        self.selected matches Some(i) ==> 0 <= i < self.items.len()
    }
}

/// The state of the window.
pub struct SharkGui {
    items: Vec<Game>,
    selected_item: Option<usize>,
    add_game_window_open: bool,
    edit_game_window_open: bool,
    remove_game_window_open: bool,
}

impl View for SharkGui {
    type V = GuiView;

    closed spec fn view(&self) -> GuiView {
        GuiView {
            items: views(self.items@),
            selected: match self.selected_item {
                Some(i) => Some(i as int),
                None => None,
            },
            add_open: self.add_game_window_open,
            edit_open: self.edit_game_window_open,
            remove_open: self.remove_game_window_open,
        }
    }
}

impl SharkGui {
    /// The window as it opens: it lists every game of the catalog, no row
    /// is selected and no dialog is open.
    pub fn new(db: &Db) -> (r: Self)
        ensures
            r@ == (GuiView {
                items: db@.games,
                selected: None,
                add_open: false,
                edit_open: false,
                remove_open: false,
            }),
    {
        SharkGui {
            items: db.get_all_games(),
            selected_item: None,
            add_game_window_open: false,
            edit_game_window_open: false,
            remove_game_window_open: false,
        }
    }

    /// Lists the games of the catalog anew. The selected row stays selected
    /// if the new list has it, and the dialogs stay as they are.
    pub fn refresh(&mut self, db: &Db)
        ensures
            final(self)@ == (GuiView {
                items: db@.games,
                selected: match old(self)@.selected {
                    Some(i) => if i < db@.games.len() {
                        Some(i)
                    } else {
                        None
                    },
                    None => None,
                },
                ..old(self)@
            }),
            final(self)@.wf(),
    {
        self.items = db.get_all_games();
        match self.selected_item {
            Some(i) => {
                if i >= self.items.len() {
                    self.selected_item = None;
                }
            },
            None => {},
        }
    }

    /// How many games are listed.
    pub fn len(&self) -> (r: usize)
        ensures
            r == self@.items.len(),
    {
        self.items.len()
    }

    /// The game in row `row` of the list, or `None` where the list has no
    /// such row.
    pub fn item(&self, row: usize) -> (r: Option<Game>)
        ensures
            row_view(r) == if row < self@.items.len() {
                Some(self@.items[row as int])
            } else {
                None
            },
    {
        if row < self.items.len() {
            let game = self.items[row].duplicate();
            Some(game)
        } else {
            None
        }
    }

    /// The selected row.
    pub fn selected_item(&self) -> (r: Option<usize>)
        ensures
            match r {
                Some(i) => self@.selected == Some(i as int),
                None => self@.selected is None,
            },
    {
        self.selected_item
    }

    /// Selects the row `row`, or no row where `row` is `None` or the list
    /// has no such row.
    pub fn select_row(&mut self, row: Option<usize>)
        ensures
            final(self)@ == (GuiView {
                selected: match row {
                    Some(i) => if i < old(self)@.items.len() {
                        Some(i as int)
                    } else {
                        None
                    },
                    None => None,
                },
                ..old(self)@
            }),
            final(self)@.wf(),
    {
        self.selected_item = match row {
            Some(i) => if i < self.items.len() {
                Some(i)
            } else {
                None
            },
            None => None,
        };
    }

    /// The selected game, or `None` where no row of the list is selected.
    pub fn selected_game(&self) -> (r: Option<Game>)
        ensures
            row_view(r) == match self@.selected {
                Some(i) => if 0 <= i < self@.items.len() {
                    Some(self@.items[i])
                } else {
                    None
                },
                None => None,
            },
    {
        match self.selected_item {
            Some(i) => self.item(i),
            None => None,
        }
    }

    /// Whether the dialog is open.
    pub fn is_open(&self, dialog: Dialog) -> (r: bool)
        ensures
            r == self@.is_open(dialog),
    {
        match dialog {
            Dialog::AddGame => self.add_game_window_open,
            Dialog::EditGame => self.edit_game_window_open,
            Dialog::RemoveGame => self.remove_game_window_open,
        }
    }

    /// A click on an entry of the game menu: the dialog of the entry is
    /// opened if it can be, and the answer says whether it was, which is
    /// when the menu closes.
    pub fn game_top_menu(&mut self, clicked: Dialog) -> (r: bool)
        ensures
            r == old(self)@.can_open(clicked),
            final(self)@ == if r {
                old(self)@.with_dialog(clicked, true)
            } else {
                old(self)@
            },
    {
        match clicked {
            Dialog::AddGame => {
                self.add_game_window_open = true;
                true
            },
            Dialog::EditGame => {
                if self.selected_item.is_some() {
                    self.edit_game_window_open = true;
                    true
                } else {
                    false
                }
            },
            Dialog::RemoveGame => {
                if self.selected_item.is_some() {
                    self.remove_game_window_open = true;
                    true
                } else {
                    false
                }
            },
        }
    }

    /// Closes the dialog.
    pub fn close(&mut self, dialog: Dialog)
        ensures
            final(self)@ == old(self)@.with_dialog(dialog, false),
    {
        match dialog {
            Dialog::AddGame => {
                self.add_game_window_open = false;
            },
            Dialog::EditGame => {
                self.edit_game_window_open = false;
            },
            Dialog::RemoveGame => {
                self.remove_game_window_open = false;
            },
        }
    }
}

} // verus!
