use vstd::prelude::*;

use crate::text_model::TextModel;

verus! {

/// The two input modes: in Normal only quitting is accepted; in Editing the
/// composed line can be edited and submitted.
#[derive(PartialEq, Eq, Clone, Copy, Debug)]
pub enum InputMode {
    Normal,
    Editing,
}

/// A terminal key event, reduced to the keys the dispatcher reacts to; any
/// other key arrives as `Other`.
#[derive(PartialEq, Eq, Clone, Copy, Debug)]
pub enum KeyInput {
    Character(char),
    Enter,
    Backspace,
    LeftArrow,
    RightArrow,
    Escape,
    Other,
}

/// What the surrounding loop must do after a key was dispatched: nothing
/// more, leave the loop, or submit the composed line to the send operation.
#[derive(PartialEq, Eq, Clone, Copy, Debug)]
pub enum Action {
    Nothing,
    Quit,
    Submit,
}

/// The editor state the render loop carries: the composed line and the
/// current input mode. Editing starts active.
pub struct App {
    pub text: TextModel,
    pub mode: InputMode,
}

/// The dispatcher's whole transition table, relating the state before a key
/// event (`pre`), the state after it (`post`), and the returned action.
///
/// - Normal mode: only the character 'q' does anything, and it quits.
/// - Editing mode, on the press transition of a key: `Enter` asks the caller
///   to submit and leaves the composed line intact (a failed send loses
///   nothing); characters are inserted at the cursor; `Backspace` deletes
///   before the cursor; the arrows move the cursor, clamped to the line;
///   `Esc` switches to Normal mode.
/// - Editing mode, on key repeat or release: the event is ignored, so a key
///   is never processed twice on platforms that report both.
pub open spec fn key_transition(
    pre: App,
    post: App,
    key: KeyInput,
    is_press: bool,
    action: Action,
) -> bool {
    if pre.mode == InputMode::Normal {
        post == pre && action == (if key == KeyInput::Character('q') {
            Action::Quit
        } else {
            Action::Nothing
        })
    } else if !is_press {
        post == pre && action == Action::Nothing
    } else {
        match key {
            KeyInput::Enter => post == pre && action == Action::Submit,
            KeyInput::Character(c) => {
                &&& post.mode == InputMode::Editing
                &&& post.text.buffer() == pre.text.buffer().insert(pre.text.cursor(), c)
                &&& post.text.cursor() == pre.text.cursor() + 1
                &&& action == Action::Nothing
            },
            KeyInput::Backspace => {
                &&& post.mode == InputMode::Editing
                &&& if pre.text.cursor() == 0 {
                    post.text.buffer() == pre.text.buffer() && post.text.cursor() == 0
                } else {
                    post.text.buffer() == pre.text.buffer().remove(pre.text.cursor() - 1)
                        && post.text.cursor() == pre.text.cursor() - 1
                }
                &&& action == Action::Nothing
            },
            KeyInput::LeftArrow => {
                &&& post.mode == InputMode::Editing
                &&& post.text.buffer() == pre.text.buffer()
                &&& post.text.cursor() == (if pre.text.cursor() == 0 {
                    0int
                } else {
                    pre.text.cursor() - 1
                })
                &&& action == Action::Nothing
            },
            KeyInput::RightArrow => {
                &&& post.mode == InputMode::Editing
                &&& post.text.buffer() == pre.text.buffer()
                &&& post.text.cursor() == (if pre.text.cursor() < pre.text.buffer().len() {
                    pre.text.cursor() + 1
                } else {
                    pre.text.cursor()
                })
                &&& action == Action::Nothing
            },
            KeyInput::Escape => {
                &&& post.mode == InputMode::Normal
                &&& post.text == pre.text
                &&& action == Action::Nothing
            },
            KeyInput::Other => post == pre && action == Action::Nothing,
        }
    }
}

impl App {
    /// The composed line's cursor stays a valid insertion point.
    pub open spec fn wf(self) -> bool {
        self.text.wf()
    }

    /// A fresh editor: empty line, cursor at the start, Editing mode.
    pub fn new() -> (app: App)
        ensures
            app.wf(),
            app.mode == InputMode::Editing,
            app.text.buffer() == Seq::<char>::empty(),
            app.text.cursor() == 0,
    {
        App { text: TextModel::new(), mode: InputMode::Editing }
    }

    /// Dispatches one key event, per the `key_transition` table, and returns
    /// the action the surrounding loop must take.
    pub fn handle_key(&mut self, key: KeyInput, is_press: bool) -> (action: Action)
        requires
            old(self).wf(),
            old(self).text.buffer().len() < usize::MAX,
        ensures
            final(self).wf(),
            key_transition(*old(self), *final(self), key, is_press, action),
    {
        match self.mode {
            InputMode::Normal => {
                match key {
                    KeyInput::Character(c) => {
                        if c == 'q' {
                            Action::Quit
                        } else {
                            Action::Nothing
                        }
                    },
                    _ => Action::Nothing,
                }
            },
            InputMode::Editing => {
                if is_press {
                    match key {
                        KeyInput::Enter => Action::Submit,
                        KeyInput::Character(c) => {
                            self.text.insert(c);
                            Action::Nothing
                        },
                        KeyInput::Backspace => {
                            self.text.delete_before_cursor();
                            Action::Nothing
                        },
                        KeyInput::LeftArrow => {
                            self.text.move_left();
                            Action::Nothing
                        },
                        KeyInput::RightArrow => {
                            self.text.move_right();
                            Action::Nothing
                        },
                        KeyInput::Escape => {
                            self.mode = InputMode::Normal;
                            Action::Nothing
                        },
                        KeyInput::Other => Action::Nothing,
                    }
                } else {
                    Action::Nothing
                }
            },
        }
    }
}

} // verus!
