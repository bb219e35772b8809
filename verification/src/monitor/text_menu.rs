//! The context menu that every text field of a window has.
use vstd::prelude::*;
use vstd::string::*;

verus! {

/// An entry of the menu.
#[derive(Debug, Clone, Copy, PartialEq, Eq, Structural)]
pub enum TextChoice {
    Cut,
    Copy,
    Paste,
    SelectAll,
    Clear,
}

impl TextChoice {
    /// How the entry is labelled.
    pub open spec fn spec_label(self) -> Seq<char> {
        match self {
            TextChoice::Cut => "✂ Cut"@,
            TextChoice::Copy => "📋 Copy"@,
            TextChoice::Paste => "📥 Paste"@,
            TextChoice::SelectAll => "Select All"@,
            TextChoice::Clear => "⌫ Clear"@,
        }
    }

    /// How the entry is labelled.
    pub fn label(self) -> (r: &'static str)
        ensures
            r@ == self.spec_label(),
    {
        match self {
            TextChoice::Cut => "✂ Cut",
            TextChoice::Copy => "📋 Copy",
            TextChoice::Paste => "📥 Paste",
            TextChoice::SelectAll => "Select All",
            TextChoice::Clear => "⌫ Clear",
        }
    }

    /// The shortcut shown beside the entry; empty where there is none.
    pub open spec fn spec_shortcut(self) -> Seq<char> {
        match self {
            TextChoice::Cut => "Cmd+X"@,
            TextChoice::Copy => "Cmd+C"@,
            TextChoice::Paste => "Cmd+V"@,
            TextChoice::SelectAll => "Cmd+A"@,
            TextChoice::Clear => ""@,
        }
    }

    /// The shortcut shown beside the entry; empty where there is none.
    pub fn shortcut(self) -> (r: &'static str)
        ensures
            r@ == self.spec_shortcut(),
    {
        match self {
            TextChoice::Cut => "Cmd+X",
            TextChoice::Copy => "Cmd+C",
            TextChoice::Paste => "Cmd+V",
            TextChoice::SelectAll => "Cmd+A",
            TextChoice::Clear => "",
        }
    }

    /// All entries, in the order of the menu.
    pub fn all() -> (r: [TextChoice; 5])
        ensures
            r@ == seq![
                TextChoice::Cut,
                TextChoice::Copy,
                TextChoice::Paste,
                TextChoice::SelectAll,
                TextChoice::Clear,
            ],
    {
        [
            TextChoice::Cut,
            TextChoice::Copy,
            TextChoice::Paste,
            TextChoice::SelectAll,
            TextChoice::Clear,
        ]
    }
}

/// What a clipboard holds; nothing where there is none.
pub open spec fn held(clipboard: Option<&str>) -> Seq<char> {
    match clipboard {
        Some(c) => c@,
        None => Seq::empty(),
    }
}

/// Whether an entry can be chosen: there must be something to paste, or some
/// text for everything else.
pub open spec fn open_to(choice: TextChoice, text: Seq<char>, clip: Seq<char>) -> bool {
    if choice is Paste {
        clip.len() > 0
    } else {
        text.len() > 0
    }
}

/// The text of a field after an entry was chosen.
pub open spec fn edited(choice: TextChoice, text: Seq<char>, clip: Seq<char>) -> Seq<char> {
    match choice {
        TextChoice::Cut => Seq::empty(),
        TextChoice::Clear => Seq::empty(),
        TextChoice::Paste => text + clip,
        _ => text,
    }
}

/// Whether an entry can be chosen.
pub fn is_enabled(choice: TextChoice, text: &str, clipboard: Option<&str>) -> (r: bool)
    ensures
        r == open_to(choice, text@, held(clipboard)),
{
    match choice {
        TextChoice::Paste => match clipboard {
            Some(c) => !c.is_empty(),
            None => false,
        },
        _ => !text.is_empty(),
    }
}

/// What a choice does to a text, and what it copies.
pub open spec fn edits(
    choice: TextChoice,
    clipboard: Option<&str>,
    text: String,
    text_after: String,
    r: Option<String>,
) -> bool {
    &&& text_after@ == edited(choice, text@, held(clipboard))
    &&& match r {
        Some(c) => (choice is Cut || choice is Copy) && c@ == text@,
        None => !(choice is Cut || choice is Copy),
    }
}

/// An entry was chosen: the field takes its new text, and what comes back goes
/// to the clipboard.
pub fn edit(choice: TextChoice, text: &mut String, clipboard: Option<&str>) -> (r: Option<String>)
    ensures
        edits(choice, clipboard, *old(text), *final(text), r),
{
    match choice {
        TextChoice::Cut => {
            let cut = text.clone();
            *text = String::new();
            Some(cut)
        },
        TextChoice::Copy => Some(text.clone()),
        TextChoice::Paste => {
            if let Some(c) = clipboard {
                text.append(c);
            }
            assert(text@ =~= old(text)@ + held(clipboard));
            None
        },
        TextChoice::SelectAll => None,
        TextChoice::Clear => {
            *text = String::new();
            None
        },
    }
}

/// Pasting what was cut brings the text back.
pub proof fn paste_undoes_cut(text: Seq<char>, clip: Seq<char>)
    ensures
        edited(TextChoice::Paste, edited(TextChoice::Cut, text, clip), text) == text,
        open_to(TextChoice::Cut, text, clip) ==> open_to(
            TextChoice::Paste,
            edited(TextChoice::Cut, text, clip),
            text,
        ),
{
    assert(edited(TextChoice::Paste, edited(TextChoice::Cut, text, clip), text) =~= text);
}

} // verus!
