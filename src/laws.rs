use vstd::prelude::*;
use crate::session::{fetching_msg, transition, Action, InputMode, Key, SessionView, PANEL_COUNT};

verus! {

/// The state after the keys, pressed in order from `s`.
pub open spec fn run(s: SessionView, keys: Seq<Key>) -> SessionView
    decreases keys.len(),
{
    if keys.len() == 0 {
        s
    } else {
        transition(run(s, keys.drop_last()), keys.last()).0
    }
}

/// `n` presses of Tab.
pub open spec fn tabs(n: nat) -> Seq<Key> {
    Seq::new(n, |i: int| Key::Tab)
}

/// The key that types `c`.
pub open spec fn char_key(c: char) -> Key {
    Key::Char(c)
}

/// The keys that type the characters, one by one.
pub open spec fn typing_keys(cs: Seq<char>) -> Seq<Key>
    decreases cs.len(),
{
    if cs.len() == 0 {
        Seq::empty()
    } else {
        typing_keys(cs.drop_last()).push(char_key(cs.last()))
    }
}

/// A key that edits the URL text: a character or Backspace.
pub open spec fn is_text_key(k: Key) -> bool {
    k is Char || k == Key::Backspace
}

/// The URL that text keys leave when they work on `url` as on a stack: a
/// character is pushed, Backspace pops the last one and does nothing on an
/// empty URL.
pub open spec fn edited(url: Seq<char>, keys: Seq<Key>) -> Seq<char>
    decreases keys.len(),
{
    if keys.len() == 0 {
        url
    } else {
        let u = edited(url, keys.drop_last());
        match keys.last() {
            Key::Char(c) => u.push(c),
            _ => if u.len() == 0 {
                u
            } else {
                u.drop_last()
            },
        }
    }
}

/// The keys that the mode table lists for a mode; all others do nothing.
pub open spec fn is_listed(mode: InputMode, k: Key) -> bool {
    match mode {
        InputMode::Normal => k == Key::Char('i') || k == Key::Char('q') || k == Key::Enter
            || k == Key::Tab,
        InputMode::Editing => k is Char || k == Key::Backspace || k == Key::Esc,
    }
}

/// Whatever keys are pressed, the highlighted panel stays one of the panels.
pub proof fn panel_stays_in_range(s: SessionView, keys: Seq<Key>)
    requires
        s.active_panel < PANEL_COUNT,
    ensures
        run(s, keys).active_panel < PANEL_COUNT,
    decreases keys.len(),
{
    if keys.len() > 0 {
        panel_stays_in_range(s, keys.drop_last());
    }
}

/// In normal mode, `n` Tab presses move the highlight `n` panels on, modulo
/// the number of panels, and change nothing else; so the highlight comes back
/// after as many presses as there are panels.
pub proof fn tab_cycles(s: SessionView, n: nat)
    requires
        s.mode == InputMode::Normal,
        s.active_panel < PANEL_COUNT,
    ensures
        run(s, tabs(n)) == (SessionView {
            active_panel: (s.active_panel + n) % (PANEL_COUNT as nat),
            ..s
        }),
        run(s, tabs((n + PANEL_COUNT) as nat)) == run(s, tabs(n)),
{
    tab_run(s, n);
    tab_run(s, (n + PANEL_COUNT) as nat);
    assert((s.active_panel + n + 5) % 5 == (s.active_panel + n) % 5);
}

proof fn tab_run(s: SessionView, n: nat)
    requires
        s.mode == InputMode::Normal,
        s.active_panel < PANEL_COUNT,
    ensures
        run(s, tabs(n)) == (SessionView {
            active_panel: (s.active_panel + n) % (PANEL_COUNT as nat),
            ..s
        }),
    decreases n,
{
    if n == 0 {
        assert(tabs(0).len() == 0);
        assert(s.active_panel % (PANEL_COUNT as nat) == s.active_panel);
    } else {
        let m = (n - 1) as nat;
        tab_run(s, m);
        assert(tabs(n).drop_last() =~= tabs(m));
        assert(tabs(n).last() == Key::Tab);
        assert(((s.active_panel + m) % 5 + 1) % 5 == (s.active_panel + n) % 5);
    }
}

/// In editing mode, typing characters appends exactly those characters to
/// the URL and changes nothing else.
pub proof fn typing_appends(s: SessionView, cs: Seq<char>)
    requires
        s.mode == InputMode::Editing,
    ensures
        run(s, typing_keys(cs)) == (SessionView { url: s.url + cs, ..s }),
    decreases cs.len(),
{
    if cs.len() == 0 {
        assert(typing_keys(cs).len() == 0);
        assert(s.url + cs =~= s.url);
    } else {
        let rest = cs.drop_last();
        typing_appends(s, rest);
        assert(cs.len() > 0);
        assert(typing_keys(cs).drop_last() =~= typing_keys(rest));
        assert((s.url + rest).push(cs.last()) =~= s.url + cs);
    }
}

/// In editing mode, characters and Backspaces change the URL alone, as a
/// stack: each character is appended and each Backspace takes off the last
/// one left, or does nothing where none is left.
pub proof fn editing_is_a_stack(s: SessionView, keys: Seq<Key>)
    requires
        s.mode == InputMode::Editing,
        forall|i: int| 0 <= i < keys.len() ==> is_text_key(#[trigger] keys[i]),
    ensures
        run(s, keys) == (SessionView { url: edited(s.url, keys), ..s }),
    decreases keys.len(),
{
    if keys.len() > 0 {
        let rest = keys.drop_last();
        assert forall|i: int| 0 <= i < rest.len() implies is_text_key(#[trigger] rest[i]) by {
            assert(rest[i] == keys[i]);
        }
        editing_is_a_stack(s, rest);
        assert(is_text_key(keys[keys.len() - 1]));
    }
}

/// In editing mode, Backspace removes the last character typed: typing a
/// character and then Backspace gives back the state before.
pub proof fn backspace_undoes_typing(s: SessionView, c: char)
    requires
        s.mode == InputMode::Editing,
    ensures
        run(s, seq![Key::Char(c), Key::Backspace]) == s,
{
    let keys = seq![Key::Char(c), Key::Backspace];
    assert(keys.drop_last() =~= seq![Key::Char(c)]);
    assert(seq![Key::Char(c)].drop_last() =~= Seq::<Key>::empty());
    let one = seq![Key::Char(c)];
    assert(run(s, one.drop_last()) == s);
    let typed_c = SessionView { url: s.url.push(c), ..s };
    assert(run(s, one) == typed_c);
    assert(s.url.push(c).drop_last() =~= s.url);
    assert(run(s, keys) == transition(typed_c, Key::Backspace).0);
}

/// Backspace on an empty URL changes nothing.
pub proof fn backspace_on_empty_url(s: SessionView)
    requires
        s.url.len() == 0,
    ensures
        transition(s, Key::Backspace) == (s, Action::Continue),
{
}

/// A key that the mode table does not list for the current mode changes
/// nothing, and the loop goes on.
pub proof fn unlisted_keys_do_nothing(s: SessionView, k: Key)
    requires
        !is_listed(s.mode, k),
    ensures
        transition(s, k) == (s, Action::Continue),
{
}

/// The mode after a key: `i` in normal mode starts editing, Esc in editing
/// mode stops it, and no other key changes the mode.
pub proof fn mode_table(s: SessionView, k: Key)
    ensures
        transition(s, k).0.mode == (match s.mode {
            InputMode::Normal => if k == Key::Char('i') {
                InputMode::Editing
            } else {
                InputMode::Normal
            },
            InputMode::Editing => if k == Key::Esc {
                InputMode::Normal
            } else {
                InputMode::Editing
            },
        }),
{
}

/// Only `q` in normal mode ends the loop, and it does so from every state in
/// normal mode, whatever keys came before; no key ends it in editing mode.
pub proof fn quit_only_by_q_in_normal_mode(s: SessionView, history: Seq<Key>, k: Key)
    ensures
        transition(run(s, history), k).1 == Action::Quit <==> (run(s, history).mode
            == InputMode::Normal && k == Key::Char('q')),
        transition(run(s, history), k).1 == Action::Quit ==> transition(run(s, history), k).0
            == run(s, history),
{
}

/// Only Enter in normal mode starts a request; it logs that it starts and
/// leaves the rest of the state as it was.
pub proof fn fetch_only_by_enter_in_normal_mode(s: SessionView, k: Key)
    ensures
        transition(s, k).1 == Action::Fetch <==> (s.mode == InputMode::Normal && k == Key::Enter),
        transition(s, k).1 == Action::Fetch ==> transition(s, k).0 == (SessionView {
            logs: s.logs.push(fetching_msg()),
            ..s
        }),
{
}

} // verus!
