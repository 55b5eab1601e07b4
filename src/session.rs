use vstd::prelude::*;

use crate::branch::{BranchItem, BranchQuery};
use crate::text::{contains_str, is_infix, lower_of, lowercase, pop_char, push_char};

verus! {

/// A name matches a search string when the lowercase search string occurs in
/// the lowercase name.
pub open spec fn name_matches(name: Seq<char>, query: Seq<char>) -> bool {
    is_infix(lower_of(name), lower_of(query))
}

/// The items whose names match `query`, in the order they came in.
pub open spec fn visible(items: Seq<BranchItem>, query: Seq<char>) -> Seq<BranchItem>
    decreases items.len(),
{
    if items.len() == 0 {
        Seq::empty()
    } else {
        let rest = visible(items.drop_last(), query);
        if name_matches(items.last().name@, query) {
            rest.push(items.last())
        } else {
            rest
        }
    }
}

proof fn lemma_empty_is_infix(hay: Seq<char>, needle: Seq<char>)
    requires
        needle.len() == 0,
    ensures
        is_infix(hay, needle),
{
    let z: int = 0;
    assert(hay.subrange(z, z + needle.len()) =~= needle);
}

proof fn lemma_visible_all(items: Seq<BranchItem>, query: Seq<char>)
    requires
        lower_of(query).len() == 0,
    ensures
        visible(items, query) == items,
    decreases items.len(),
{
    if items.len() > 0 {
        lemma_visible_all(items.drop_last(), query);
        lemma_empty_is_infix(lower_of(items.last().name@), lower_of(query));
        assert(items.drop_last().push(items.last()) =~= items);
    }
}

/// Filtering is idempotent: the items that a search string lets through, filtered
/// again by the same search string, stay exactly as they are.
pub proof fn filter_idempotent(items: Seq<BranchItem>, query: Seq<char>)
    ensures
        visible(visible(items, query), query) == visible(items, query),
    decreases items.len(),
{
    if items.len() > 0 {
        filter_idempotent(items.drop_last(), query);
        let rest = visible(items.drop_last(), query);
        if name_matches(items.last().name@, query) {
            assert(rest.push(items.last()).drop_last() =~= rest);
        }
    }
}

/// The items whose already-lowercased names (`names`, one per item) contain the
/// already-lowercased `query`, in the order they came in.
pub open spec fn visible_folded(items: Seq<BranchItem>, names: Seq<String>, query: Seq<char>) -> Seq<
    BranchItem,
>
    decreases items.len(),
{
    if items.len() == 0 {
        Seq::empty()
    } else {
        let rest = visible_folded(items.drop_last(), names.drop_last(), query);
        if is_infix(names.last()@, query) {
            rest.push(items.last())
        } else {
            rest
        }
    }
}

/// `names` holds the lowercase form of each item's name.
pub open spec fn folded_names(items: Seq<BranchItem>, names: Seq<String>) -> bool {
    &&& names.len() == items.len()
    &&& forall|i: int| 0 <= i < items.len() ==> (#[trigger] names[i])@ == lower_of(items[i].name@)
}

proof fn lemma_visible_folded(items: Seq<BranchItem>, names: Seq<String>, query: Seq<char>)
    requires
        folded_names(items, names),
    ensures
        visible_folded(items, names, lower_of(query)) == visible(items, query),
    decreases items.len(),
{
    if items.len() > 0 {
        let k = items.len() - 1;
        assert(names.last() == names[k]);
        assert forall|i: int| 0 <= i < items.drop_last().len() implies (#[trigger] names.drop_last()[
            i
        ])@ == lower_of(items.drop_last()[i].name@) by {
            assert(names.drop_last()[i] == names[i]);
        }
        lemma_visible_folded(items.drop_last(), names.drop_last(), query);
    }
}

/// The items whose lowercase names `names` (one per item, in the same order)
/// contain the lowercase search string `query`, in the order they came in.
pub fn filter_folded(items: &Vec<BranchItem>, names: &Vec<String>, query: &str) -> (r: Vec<
    BranchItem,
>)
    requires
        names@.len() == items@.len(),
    ensures
        r@ == visible_folded(items@, names@, query@),
{
    let mut r: Vec<BranchItem> = Vec::new();
    let mut i: usize = 0;
    while i < items.len()
        invariant
            i <= items@.len(),
            names@.len() == items@.len(),
            r@ == visible_folded(items@.subrange(0, i as int), names@.subrange(0, i as int), query@),
        decreases items@.len() - i,
    {
        proof {
            assert(items@.subrange(0, i + 1).drop_last() =~= items@.subrange(0, i as int));
            assert(names@.subrange(0, i + 1).drop_last() =~= names@.subrange(0, i as int));
            assert(items@.subrange(0, i + 1).last() == items@[i as int]);
            assert(names@.subrange(0, i + 1).last() == names@[i as int]);
        }
        if contains_str(names[i].as_str(), query) {
            r.push(items[i].clone());
        }
        i = i + 1;
    }
    proof {
        assert(items@.subrange(0, items@.len() as int) =~= items@);
        assert(names@.subrange(0, names@.len() as int) =~= names@);
    }
    r
}

/// The items of `items` whose names contain `search`, ignoring case, in order.
/// An empty search string lets every item through.
pub fn filter_branches(items: &Vec<BranchItem>, search: &str) -> (r: Vec<BranchItem>)
    ensures
        r@ == visible(items@, search@),
        search@.len() == 0 ==> r@ == items@,
{
    let query = lowercase(search);
    let mut names: Vec<String> = Vec::new();
    let mut i: usize = 0;
    while i < items.len()
        invariant
            i <= items@.len(),
            names@.len() == i,
            forall|j: int| 0 <= j < i ==> (#[trigger] names@[j])@ == lower_of(items@[j].name@),
        decreases items@.len() - i,
    {
        names.push(lowercase(items[i].name.as_str()));
        i = i + 1;
    }
    let r = filter_folded(items, &names, query.as_str());
    proof {
        lemma_visible_folded(items@, names@, search@);
        if search@.len() == 0 {
            lemma_visible_all(items@, search@);
        }
    }
    r
}

/// The index kept after the list changed length to `n`: an index past the end
/// moves to the last item, and to 0 when the list is empty.
pub open spec fn clamp(i: nat, n: nat) -> nat {
    if i < n {
        i
    } else if n > 0 {
        (n - 1) as nat
    } else {
        0
    }
}

/// The two ways the selection moves.
#[derive(Debug, Clone, Copy, PartialEq, Eq, Structural)]
pub enum Direction {
    Next,
    Previous,
}

/// The index after one move in a list of `n` items, wrapping at both ends.
pub open spec fn move_index(dir: Direction, i: nat, n: nat) -> nat {
    if n == 0 {
        i
    } else {
        match dir {
            Direction::Next => if i + 1 >= n {
                0
            } else {
                i + 1
            },
            Direction::Previous => if i == 0 || i >= n {
                (n - 1) as nat
            } else {
                (i - 1) as nat
            },
        }
    }
}

/// The index after `k` moves in the same direction.
pub open spec fn repeat_move(dir: Direction, i: nat, n: nat, k: nat) -> nat
    decreases k,
{
    if k == 0 {
        i
    } else {
        move_index(dir, repeat_move(dir, i, n, (k - 1) as nat), n)
    }
}

proof fn lemma_repeat_next(i: nat, n: nat, k: nat)
    requires
        i < n,
        k <= n,
    ensures
        repeat_move(Direction::Next, i, n, k) == if i + k < n {
            i + k
        } else {
            (i + k - n) as nat
        },
    decreases k,
{
    if k > 0 {
        lemma_repeat_next(i, n, (k - 1) as nat);
    }
}

proof fn lemma_repeat_previous(i: nat, n: nat, k: nat)
    requires
        i < n,
        k <= n,
    ensures
        repeat_move(Direction::Previous, i, n, k) == if k <= i {
            (i - k) as nat
        } else {
            (i + n - k) as nat
        },
    decreases k,
{
    if k > 0 {
        lemma_repeat_previous(i, n, (k - 1) as nat);
    }
}

/// Moving the selection is cyclic: `n` moves in one direction through a list of
/// `n` items return to the index they started from.
pub proof fn move_selection_cycles(dir: Direction, i: nat, n: nat)
    requires
        i < n,
    ensures
        repeat_move(dir, i, n, n) == i,
{
    match dir {
        Direction::Next => lemma_repeat_next(i, n, n),
        Direction::Previous => lemma_repeat_previous(i, n, n),
    }
}


/// Whether keys edit the search string or act on the list.
#[derive(Debug, Clone, Copy, PartialEq, Eq, Structural)]
pub enum Mode {
    Browsing,
    Searching,
}

/// The key of a key event.
#[derive(Debug, Clone, Copy, PartialEq, Eq, Structural)]
pub enum Key {
    Char(char),
    Backspace,
    Enter,
    Esc,
    Other,
}

/// An event from the display surface.
#[derive(Debug, Clone, Copy, PartialEq, Eq, Structural)]
pub enum Input {
    /// A key event; `control` is set when the control modifier alone is held,
    /// `pressed` when the key went down (rather than up or repeating).
    Key { key: Key, control: bool, pressed: bool },
    /// The display surface changed size.
    Resize,
    /// Any other event.
    Other,
}

/// What the caller does after an input.
pub enum Action {
    /// Nothing changed that is shown.
    Idle,
    /// Resolve the branches again, refresh, and draw.
    Render,
    /// Check out the named branch, then resolve, refresh and draw.
    Checkout(String),
    /// End the session.
    Quit,
}

/// The state of an interactive session over a repository's branches.
pub struct Session {
    /// Every branch of the last resolution, in order.
    pub all: Vec<BranchItem>,
    /// The branches whose names match `search`, in order.
    pub visible: Vec<BranchItem>,
    /// Index into `visible` of the selected branch.
    pub selected: usize,
    /// The search string, edited a character at a time.
    pub search: String,
    /// Which branches a resolution includes.
    pub scope: BranchQuery,
    pub mode: Mode,
}

/// The keys that end the session while browsing: `q`, control-`c` and escape.
pub open spec fn is_quit_key(key: Key, control: bool) -> bool {
    key == Key::Char('q') || (key == Key::Char('c') && control) || key == Key::Esc
}

impl Session {
    /// The selection points into the visible list whenever that list is not empty.
    pub open spec fn wf(&self) -> bool {
        self.visible@.len() > 0 ==> self.selected < self.visible@.len()
    }

    /// Only the selection may have changed.
    pub open spec fn same_but_selection(&self, other: &Session) -> bool {
        &&& self.all@ == other.all@
        &&& self.visible@ == other.visible@
        &&& self.search@ == other.search@
        &&& self.scope == other.scope
        &&& self.mode == other.mode
    }

    /// Nothing at all changed.
    pub open spec fn unchanged(&self, other: &Session) -> bool {
        self.same_but_selection(other) && self.selected == other.selected
    }

    /// Everything but the search string and the mode stayed as it was.
    pub open spec fn same_list(&self, other: &Session) -> bool {
        &&& self.all@ == other.all@
        &&& self.visible@ == other.visible@
        &&& self.selected == other.selected
        &&& self.scope == other.scope
    }

    /// The outcome of an input while browsing.
    pub open spec fn browse_step(&self, input: Input, post: &Session, r: &Action) -> bool {
        let n = self.visible@.len();
        match input {
            Input::Key { key, control, pressed } => if is_quit_key(key, control) {
                r is Quit && post.unchanged(self)
            } else if key == Key::Char('k') || key == Key::Char('j') {
                let dir = if key == Key::Char('k') {
                    Direction::Next
                } else {
                    Direction::Previous
                };
                &&& post.same_but_selection(self)
                &&& post.selected == move_index(dir, self.selected as nat, n)
                &&& if n > 0 {
                    r is Render
                } else {
                    r is Idle
                }
            } else if key == Key::Char('l') {
                &&& post.unchanged(self)
                &&& if n > 0 {
                    r matches Action::Checkout(name) && name@ == self.visible@[self.selected as int].name@
                } else {
                    r is Idle
                }
            } else if key == Key::Char('/') {
                &&& r is Render
                &&& post.same_list(self)
                &&& post.search@ == self.search@
                &&& post.mode == Mode::Searching
            } else if key == Key::Char('r') {
                &&& r is Render
                &&& post.all@ == self.all@
                &&& post.visible@ == self.visible@
                &&& post.selected == self.selected
                &&& post.search@ == self.search@
                &&& post.mode == self.mode
                &&& post.scope == self.scope.spec_next()
            } else {
                r is Idle && post.unchanged(self)
            },
            Input::Resize => r is Render && post.unchanged(self),
            Input::Other => r is Idle && post.unchanged(self),
        }
    }

    /// The outcome of an input while searching.
    pub open spec fn search_step(&self, input: Input, post: &Session, r: &Action) -> bool {
        match input {
            Input::Key { key, control, pressed } => if !pressed {
                r is Idle && post.unchanged(self)
            } else if key == Key::Char('c') && control {
                r is Quit && post.unchanged(self)
            } else {
                &&& r is Render
                &&& post.same_list(self)
                &&& match key {
                    Key::Char(c) => post.search@ == self.search@.push(c) && post.mode
                        == Mode::Searching,
                    Key::Backspace => post.search@ == (if self.search@.len() > 0 {
                        self.search@.drop_last()
                    } else {
                        self.search@
                    }) && post.mode == Mode::Searching,
                    Key::Esc => post.search@.len() == 0 && post.mode == Mode::Browsing,
                    Key::Enter => post.search@ == self.search@ && post.mode == Mode::Browsing,
                    Key::Other => post.search@ == self.search@ && post.mode == Mode::Searching,
                }
            },
            Input::Resize => r is Render && post.unchanged(self),
            Input::Other => r is Idle && post.unchanged(self),
        }
    }

    /// A session with no branches yet, browsing the local branches, with an empty search.
    pub fn new() -> (r: Session)
        ensures
            r.all@.len() == 0,
            r.visible@.len() == 0,
            r.selected == 0,
            r.search@.len() == 0,
            r.scope == BranchQuery::Local,
            r.mode == Mode::Browsing,
            r.wf(),
    {
        Session {
            all: Vec::new(),
            visible: Vec::new(),
            selected: 0,
            search: String::new(),
            scope: BranchQuery::Local,
            mode: Mode::Browsing,
        }
    }

    /// Takes a fresh resolution of the branches: stores it, filters it by the
    /// search string, and keeps the selection in bounds.
    pub fn refresh(&mut self, all: Vec<BranchItem>)
        ensures
            final(self).all@ == all@,
            final(self).visible@ == visible(all@, old(self).search@),
            final(self).selected == clamp(old(self).selected as nat, final(self).visible@.len()),
            final(self).search@ == old(self).search@,
            final(self).scope == old(self).scope,
            final(self).mode == old(self).mode,
            final(self).wf(),
    {
        let visible = filter_branches(&all, self.search.as_str());
        let n = visible.len();
        if self.selected >= n {
            self.selected = if n > 0 {
                n - 1
            } else {
                0
            };
        }
        self.visible = visible;
        self.all = all;
    }

    /// Moves the selection one step, wrapping at both ends; returns whether
    /// there was anything to move through.
    pub fn move_selection(&mut self, dir: Direction) -> (moved: bool)
        requires
            old(self).wf(),
        ensures
            final(self).same_but_selection(old(self)),
            final(self).selected == move_index(dir, old(self).selected as nat, old(self).visible@.len()),
            moved == (old(self).visible@.len() > 0),
            final(self).wf(),
    {
        let n = self.visible.len();
        if n == 0 {
            return false;
        }
        match dir {
            Direction::Next => {
                if self.selected + 1 >= n {
                    self.selected = 0;
                } else {
                    self.selected = self.selected + 1;
                }
            },
            Direction::Previous => {
                if self.selected == 0 {
                    self.selected = n - 1;
                } else {
                    self.selected = self.selected - 1;
                }
            },
        }
        true
    }

    /// Rotates the scope `Local -> LocalAndRemote -> Remote -> Local`; the
    /// caller refreshes afterwards.
    pub fn cycle_scope(&mut self)
        ensures
            final(self).scope == old(self).scope.spec_next(),
            final(self).all@ == old(self).all@,
            final(self).visible@ == old(self).visible@,
            final(self).selected == old(self).selected,
            final(self).search@ == old(self).search@,
            final(self).mode == old(self).mode,
    {
        self.scope = self.scope.next();
    }

    fn handle_browsing(&mut self, key: Key, control: bool) -> (r: Action)
        requires
            old(self).wf(),
            old(self).mode == Mode::Browsing,
        ensures
            old(self).browse_step(Input::Key { key, control, pressed: true }, final(self), &r),
            final(self).wf(),
    {
        match key {
            Key::Char('q') | Key::Esc => Action::Quit,
            Key::Char('c') if control => Action::Quit,
            Key::Char('k') => if self.move_selection(Direction::Next) {
                Action::Render
            } else {
                Action::Idle
            },
            Key::Char('j') => if self.move_selection(Direction::Previous) {
                Action::Render
            } else {
                Action::Idle
            },
            Key::Char('l') => if self.visible.len() > 0 {
                Action::Checkout(self.visible[self.selected].name.clone())
            } else {
                Action::Idle
            },
            Key::Char('/') => {
                self.mode = Mode::Searching;
                Action::Render
            },
            Key::Char('r') => {
                self.cycle_scope();
                Action::Render
            },
            _ => Action::Idle,
        }
    }

    fn handle_searching(&mut self, key: Key, control: bool) -> (r: Action)
        requires
            old(self).wf(),
            old(self).mode == Mode::Searching,
        ensures
            old(self).search_step(Input::Key { key, control, pressed: true }, final(self), &r),
            final(self).wf(),
    {
        match key {
            Key::Char('c') if control => Action::Quit,
            Key::Char(c) => {
                push_char(&mut self.search, c);
                Action::Render
            },
            Key::Backspace => {
                let _ = pop_char(&mut self.search);
                Action::Render
            },
            Key::Esc => {
                self.search = String::new();
                self.mode = Mode::Browsing;
                Action::Render
            },
            Key::Enter => {
                self.mode = Mode::Browsing;
                Action::Render
            },
            Key::Other => Action::Render,
        }
    }

    /// Applies one input. While browsing, keys move the selection (`k` next,
    /// `j` previous), check out the selected branch (`l`), start a search (`/`),
    /// cycle the scope (`r`) or quit (`q`, control-`c`, escape); key releases
    /// count as well. While searching, pressed keys edit the search string,
    /// enter keeps it and escape clears it, both returning to browsing, and
    /// control-`c` quits. A resize asks for a redraw in either mode.
    pub fn handle_input(&mut self, input: Input) -> (r: Action)
        requires
            old(self).wf(),
        ensures
            old(self).mode == Mode::Browsing ==> old(self).browse_step(input, final(self), &r),
            old(self).mode == Mode::Searching ==> old(self).search_step(input, final(self), &r),
            final(self).wf(),
    {
        match input {
            Input::Key { key, control, pressed } => match self.mode {
                Mode::Browsing => self.handle_browsing(key, control),
                Mode::Searching => if pressed {
                    self.handle_searching(key, control)
                } else {
                    Action::Idle
                },
            },
            Input::Resize => Action::Render,
            Input::Other => Action::Idle,
        }
    }
}

} // verus!
