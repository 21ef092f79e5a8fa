//! The to-do list store: its state, its commands, and the transition
//! function that applies a command to the state.
//!
//! The state is modelled by [`TodoListView`], a command by [`CommandView`],
//! and every transition by the spec function [`apply_command`], so that the
//! executable [`TodoList::update`] carries an exact contract: the new state
//! is `apply_command` of the old one, and the returned re-render flag is
//! [`command_changes`].

use vstd::prelude::*;

use crate::text::{contains_substr, has_substring, is_space_char, trim, trimmed};

verus! {

/// A single to-do entry: what to do, and whether it is done.
pub struct Todo {
    pub description: String,
    pub completed: bool,
}

/// The mathematical value of a [`Todo`].
#[verifier::ext_equal]
pub ghost struct TodoView {
    pub description: Seq<char>,
    pub completed: bool,
}

impl View for Todo {
    type V = TodoView;

    open spec fn view(&self) -> TodoView {
        TodoView { description: self.description@, completed: self.completed }
    }
}

impl Clone for Todo {
    /// Cloning keeps the description and the completed flag.
    fn clone(&self) -> (r: Self)
        ensures
            r@ == self@,
    {
        Todo { description: self.description.clone(), completed: self.completed }
    }
}

/// A user command submitted to the store. Commands that address an item do
/// so by its current position in the list.
pub enum TodoListMessage {
    Add(String),
    Search(String),
    ToggleComplete(usize),
    Edit(usize, String),
    Delete(usize),
    DeleteAll,
}

/// The mathematical value of a [`TodoListMessage`].
#[verifier::ext_equal]
pub ghost enum CommandView {
    Add(Seq<char>),
    Search(Seq<char>),
    ToggleComplete(int),
    Edit(int, Seq<char>),
    Delete(int),
    DeleteAll,
}

impl View for TodoListMessage {
    type V = CommandView;

    open spec fn view(&self) -> CommandView {
        match self {
            TodoListMessage::Add(text) => CommandView::Add(text@),
            TodoListMessage::Search(text) => CommandView::Search(text@),
            TodoListMessage::ToggleComplete(index) => CommandView::ToggleComplete(*index as int),
            TodoListMessage::Edit(index, text) => CommandView::Edit(*index as int, text@),
            TodoListMessage::Delete(index) => CommandView::Delete(*index as int),
            TodoListMessage::DeleteAll => CommandView::DeleteAll,
        }
    }
}

/// The mathematical value of a [`TodoList`]: the items in order, and the
/// filter text.
#[verifier::ext_equal]
pub ghost struct TodoListView {
    pub items: Seq<TodoView>,
    pub filter: Seq<char>,
}

/// The state a store starts in: no items, empty filter.
pub open spec fn initial_state() -> TodoListView {
    TodoListView { items: Seq::empty(), filter: Seq::empty() }
}

/// A command may be applied to a state when any position it addresses is in
/// bounds; a command out of bounds is a caller error, ruled out up front.
pub open spec fn command_allowed(s: TodoListView, c: CommandView) -> bool {
    match c {
        CommandView::ToggleComplete(i) => 0 <= i < s.items.len(),
        CommandView::Edit(i, _) => 0 <= i < s.items.len(),
        CommandView::Delete(i) => 0 <= i < s.items.len(),
        _ => true,
    }
}

/// The state after applying one command:
/// - `Add` trims the text and, when something is left, appends a new
///   not-completed item; otherwise it is a no-op.
/// - `Search` replaces the filter text verbatim.
/// - `ToggleComplete` flips the completed flag at the given position.
/// - `Edit` overwrites the description at the given position verbatim.
/// - `Delete` removes the item at the given position, shifting later items
///   down by one.
/// - `DeleteAll` removes every item; the filter stays.
pub open spec fn apply_command(s: TodoListView, c: CommandView) -> TodoListView
    recommends
        command_allowed(s, c),
{
    match c {
        CommandView::Add(text) => {
            let d = trimmed(text);
            if d.len() > 0 {
                TodoListView {
                    items: s.items.push(TodoView { description: d, completed: false }),
                    filter: s.filter,
                }
            } else {
                s
            }
        },
        CommandView::Search(text) => TodoListView { items: s.items, filter: text },
        CommandView::ToggleComplete(i) => TodoListView {
            items: s.items.update(
                i,
                TodoView { description: s.items[i].description, completed: !s.items[i].completed },
            ),
            filter: s.filter,
        },
        CommandView::Edit(i, text) => TodoListView {
            items: s.items.update(
                i,
                TodoView { description: text, completed: s.items[i].completed },
            ),
            filter: s.filter,
        },
        CommandView::Delete(i) => TodoListView { items: s.items.remove(i), filter: s.filter },
        CommandView::DeleteAll => TodoListView { items: Seq::empty(), filter: s.filter },
    }
}

/// Whether a command warrants a re-render: every command does, except an
/// `Add` whose text trims to nothing.
pub open spec fn command_changes(c: CommandView) -> bool {
    match c {
        CommandView::Add(text) => trimmed(text).len() > 0,
        _ => true,
    }
}

/// An item is visible when its description contains the filter text as a
/// substring; an empty filter keeps every item visible.
pub open spec fn item_visible(item: TodoView, filter: Seq<char>) -> bool {
    has_substring(item.description, filter)
}

/// The visibility projection: the items whose description contains the
/// filter, in their stored order.
pub open spec fn visible_of(items: Seq<TodoView>, filter: Seq<char>) -> Seq<TodoView> {
    items.filter(|item: TodoView| item_visible(item, filter))
}

/// The store: an ordered list of to-do items and the active filter text.
pub struct TodoList {
    todos: Vec<Todo>,
    filter: String,
}

impl View for TodoList {
    type V = TodoListView;

    closed spec fn view(&self) -> TodoListView {
        TodoListView {
            items: self.todos@.map_values(|t: Todo| t@),
            filter: self.filter@,
        }
    }
}

impl TodoList {
    /// Creates an empty store.
    pub fn new() -> (r: Self)
        ensures
            r@ == initial_state(),
    {
        let r = TodoList { todos: Vec::new(), filter: String::new() };
        proof {
            assert(r@ =~~= initial_state());
        }
        r
    }

    /// Applies one command and reports whether a re-render is warranted.
    /// Positions a command addresses must be in bounds.
    pub fn update(&mut self, msg: TodoListMessage) -> (changed: bool)
        requires
            command_allowed(old(self)@, msg@),
        ensures
            final(self)@ == apply_command(old(self)@, msg@),
            changed == command_changes(msg@),
    {
        let ghost c = msg@;
        match msg {
            TodoListMessage::Add(text) => {
                let d = trim(text.as_str());
                if !d.as_str().is_empty() {
                    self.todos.push(Todo { description: d, completed: false });
                    proof {
                        assert(self@ =~~= apply_command(old(self)@, c));
                    }
                    true
                } else {
                    proof {
                        assert(self@ =~~= apply_command(old(self)@, c));
                    }
                    false
                }
            },
            TodoListMessage::Search(text) => {
                self.filter = text;
                proof {
                    assert(self@ =~~= apply_command(old(self)@, c));
                }
                true
            },
            TodoListMessage::ToggleComplete(index) => {
                let item = &mut self.todos[index];
                item.completed = !item.completed;
                proof {
                    assert(self@ =~~= apply_command(old(self)@, c));
                }
                true
            },
            TodoListMessage::Edit(index, text) => {
                let item = &mut self.todos[index];
                item.description = text;
                proof {
                    assert(self@ =~~= apply_command(old(self)@, c));
                }
                true
            },
            TodoListMessage::Delete(index) => {
                self.todos.remove(index);
                proof {
                    assert(self@ =~~= apply_command(old(self)@, c));
                }
                true
            },
            TodoListMessage::DeleteAll => {
                self.todos.clear();
                proof {
                    assert(self@ =~~= apply_command(old(self)@, c));
                }
                true
            },
        }
    }

    /// Returns copies of the items the view layer should render: exactly
    /// those whose description contains the filter text, in stored order.
    /// The store itself is not changed.
    pub fn visible_items(&self) -> (r: Vec<Todo>)
        ensures
            r@.map_values(|t: Todo| t@) == visible_of(self@.items, self@.filter),
    {
        let mut r: Vec<Todo> = Vec::new();
        let mut i: usize = 0;
        proof {
            assert(self@.items.take(0) =~= Seq::<TodoView>::empty());
            reveal_with_fuel(Seq::filter, 1);
            assert(r@.map_values(|t: Todo| t@) =~= visible_of(self@.items.take(0), self@.filter));
        }
        while i < self.todos.len()
            invariant
                0 <= i <= self.todos@.len(),
                self@.items.len() == self.todos@.len(),
                r@.map_values(|t: Todo| t@) == visible_of(self@.items.take(i as int), self@.filter),
            decreases self.todos@.len() - i,
        {
            let ghost prev = r@.map_values(|t: Todo| t@);
            let item = &self.todos[i];
            let visible = contains_substr(item.description.as_str(), self.filter.as_str());
            proof {
                assert(self@.items[i as int] == item@);
                assert(visible == item_visible(item@, self@.filter));
            }
            if visible {
                r.push(item.clone());
            }
            proof {
                let taken = self@.items.take(i as int);
                let taken1 = self@.items.take(i + 1);
                assert(taken1.drop_last() =~= taken);
                assert(taken1.last() == self@.items[i as int]);
                reveal_with_fuel(Seq::filter, 2);
                if visible {
                    assert(visible_of(taken1, self@.filter) == visible_of(taken, self@.filter).push(
                        item@,
                    ));
                    assert(r@.map_values(|t: Todo| t@) =~= prev.push(item@));
                } else {
                    assert(visible_of(taken1, self@.filter) == visible_of(taken, self@.filter));
                }
            }
            i = i + 1;
        }
        proof {
            assert(self@.items.take(i as int) =~= self@.items);
        }
        r
    }

    /// The number of stored items, visible or not.
    pub fn len(&self) -> (n: usize)
        ensures
            n == self@.items.len(),
    {
        self.todos.len()
    }

    /// A borrow of the item at a position in bounds.
    pub fn get(&self, index: usize) -> (item: &Todo)
        requires
            index < self@.items.len(),
        ensures
            item@ == self@.items[index as int],
    {
        &self.todos[index]
    }

    /// A borrow of the active filter text.
    pub fn filter_text(&self) -> (r: &str)
        ensures
            r@ == self@.filter,
    {
        self.filter.as_str()
    }
}

/// Law: toggling the completed flag at the same position twice, with no
/// command in between, restores the state exactly.
pub proof fn lemma_toggle_twice_restores(s: TodoListView, i: int)
    requires
        0 <= i < s.items.len(),
    ensures
        apply_command(
            apply_command(s, CommandView::ToggleComplete(i)),
            CommandView::ToggleComplete(i),
        ) == s,
{
    let s2 = apply_command(
        apply_command(s, CommandView::ToggleComplete(i)),
        CommandView::ToggleComplete(i),
    );
    assert(s2.items =~~= s.items);
    assert(s2 =~~= s);
}

/// Law: deleting the item at position `i` shortens the list by exactly one;
/// every item before `i` stays at its position, every item after `i` moves
/// down by one, and the filter is untouched.
pub proof fn lemma_delete_shifts(s: TodoListView, i: int)
    requires
        0 <= i < s.items.len(),
    ensures
        apply_command(s, CommandView::Delete(i)).items.len() == s.items.len() - 1,
        forall|j: int|
            0 <= j < i ==> apply_command(s, CommandView::Delete(i)).items[j] == s.items[j],
        forall|j: int|
            i < j < s.items.len() ==> apply_command(s, CommandView::Delete(i)).items[j - 1]
                == s.items[j],
        apply_command(s, CommandView::Delete(i)).filter == s.filter,
{
    s.items.remove_ensures(i);
    assert forall|j: int| i < j < s.items.len() implies apply_command(
        s,
        CommandView::Delete(i),
    ).items[j - 1] == s.items[j] by {
        assert(s.items.remove(i)[j - 1] == s.items[j]);
    }
}

/// Law: delete-all empties the item list whatever it held, and leaves the
/// filter untouched.
pub proof fn lemma_delete_all_clears(s: TodoListView)
    ensures
        apply_command(s, CommandView::DeleteAll).items == Seq::<TodoView>::empty(),
        apply_command(s, CommandView::DeleteAll).filter == s.filter,
{
}

} // verus!
