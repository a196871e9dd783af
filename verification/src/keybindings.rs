use vstd::prelude::*;

use crate::state::Key;

verus! {

/// What a binding runs; the per-key state changes themselves are the step
/// functions of `dispatch`.
#[derive(Clone, Copy, Debug, PartialEq, Eq, Structural)]
pub enum ActionId {
    Quit,
    ScrollUp,
    ScrollDown,
    ScrollLeft,
    ScrollRight,
    Confirm,
    SearchBackspace,
    JumpLatest,
    OpenSearch,
    NextMatch,
    PrevMatch,
    OpenHelp,
}

/// One entry of the binding table: the keys it answers to, the help line, and
/// the action it runs.
pub struct KeyBinding {
    pub keys: Vec<Key>,
    pub description: &'static str,
    pub action: ActionId,
}

/// The binding table, in precedence order: earlier entries win where key sets
/// overlap. The dispatcher follows this order; the help panel renders the
/// descriptions.
pub fn default_keybindings() -> (t: Vec<KeyBinding>)
    ensures
        t@.len() == 12,
        t@[0].keys@ == seq![Key::Esc, Key::Char('q')] && t@[0].action == ActionId::Quit,
        t@[1].keys@ == seq![Key::Up, Key::Char('k')] && t@[1].action == ActionId::ScrollUp,
        t@[2].keys@ == seq![Key::Down, Key::Char('j')] && t@[2].action == ActionId::ScrollDown,
        t@[3].keys@ == seq![Key::Left, Key::Char('h')] && t@[3].action == ActionId::ScrollLeft,
        t@[4].keys@ == seq![Key::Right, Key::Char('l')] && t@[4].action == ActionId::ScrollRight,
        t@[5].keys@ == seq![Key::Enter] && t@[5].action == ActionId::Confirm,
        t@[6].keys@ == seq![Key::Backspace] && t@[6].action == ActionId::SearchBackspace,
        t@[7].keys@ == seq![Key::Char('G')] && t@[7].action == ActionId::JumpLatest,
        t@[8].keys@ == seq![Key::Char('/')] && t@[8].action == ActionId::OpenSearch,
        t@[9].keys@ == seq![Key::Char('n')] && t@[9].action == ActionId::NextMatch,
        t@[10].keys@ == seq![Key::Char('N')] && t@[10].action == ActionId::PrevMatch,
        t@[11].keys@ == seq![Key::Char('?')] && t@[11].action == ActionId::OpenHelp,
        t@[0].description@ == "Quit / Close dialog"@,
        t@[1].description@ == "Scroll up"@,
        t@[2].description@ == "Scroll down"@,
        t@[3].description@ == "Scroll left"@,
        t@[4].description@ == "Scroll right"@,
        t@[5].description@ == "Open / confirm"@,
        t@[6].description@ == "Delete character in search"@,
        t@[7].description@ == "Jump to latest log entry"@,
        t@[8].description@ == "Open search"@,
        t@[9].description@ == "Jump to next match"@,
        t@[10].description@ == "Jump to previous match"@,
        t@[11].description@ == "Open help"@,
{
    let t: Vec<KeyBinding> = vec![
        KeyBinding {
            keys: vec![Key::Esc, Key::Char('q')],
            description: "Quit / Close dialog",
            action: ActionId::Quit,
        },
        KeyBinding {
            keys: vec![Key::Up, Key::Char('k')],
            description: "Scroll up",
            action: ActionId::ScrollUp,
        },
        KeyBinding {
            keys: vec![Key::Down, Key::Char('j')],
            description: "Scroll down",
            action: ActionId::ScrollDown,
        },
        KeyBinding {
            keys: vec![Key::Left, Key::Char('h')],
            description: "Scroll left",
            action: ActionId::ScrollLeft,
        },
        KeyBinding {
            keys: vec![Key::Right, Key::Char('l')],
            description: "Scroll right",
            action: ActionId::ScrollRight,
        },
        KeyBinding {
            keys: vec![Key::Enter],
            description: "Open / confirm",
            action: ActionId::Confirm,
        },
        KeyBinding {
            keys: vec![Key::Backspace],
            description: "Delete character in search",
            action: ActionId::SearchBackspace,
        },
        KeyBinding {
            keys: vec![Key::Char('G')],
            description: "Jump to latest log entry",
            action: ActionId::JumpLatest,
        },
        KeyBinding {
            keys: vec![Key::Char('/')],
            description: "Open search",
            action: ActionId::OpenSearch,
        },
        KeyBinding {
            keys: vec![Key::Char('n')],
            description: "Jump to next match",
            action: ActionId::NextMatch,
        },
        KeyBinding {
            keys: vec![Key::Char('N')],
            description: "Jump to previous match",
            action: ActionId::PrevMatch,
        },
        KeyBinding {
            keys: vec![Key::Char('?')],
            description: "Open help",
            action: ActionId::OpenHelp,
        },
    ];
    proof {
        assert(t@[0].keys@ =~= seq![Key::Esc, Key::Char('q')]);
        assert(t@[1].keys@ =~= seq![Key::Up, Key::Char('k')]);
        assert(t@[2].keys@ =~= seq![Key::Down, Key::Char('j')]);
        assert(t@[3].keys@ =~= seq![Key::Left, Key::Char('h')]);
        assert(t@[4].keys@ =~= seq![Key::Right, Key::Char('l')]);
        assert(t@[5].keys@ =~= seq![Key::Enter]);
        assert(t@[6].keys@ =~= seq![Key::Backspace]);
        assert(t@[7].keys@ =~= seq![Key::Char('G')]);
        assert(t@[8].keys@ =~= seq![Key::Char('/')]);
        assert(t@[9].keys@ =~= seq![Key::Char('n')]);
        assert(t@[10].keys@ =~= seq![Key::Char('N')]);
        assert(t@[11].keys@ =~= seq![Key::Char('?')]);
    }
    t
}

} // verus!
