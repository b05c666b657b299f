//! The panels that take all keys while they are open.

use vstd::prelude::*;
use crate::app::nav::ConfirmAction;
use crate::app::panes::{
    menu_item, step_cursor, stepped, ContextMenu, Edit, HelpPane, LoginState, MenuAction,
    PromptAction, PromptState, QualityPicker, TextInput,
};
use crate::config::QUALITIES;
use crate::model::Song;

verus! {

/// The panels that take all keys while they are open.
#[derive(Debug)]
pub struct Panels<S = String, C = Vec<char>> {
    pub context_menu: Option<ContextMenu>,
    pub help: HelpPane,
    pub quality_picker: Option<QualityPicker>,
    /// The place in the list of services to log in to.
    pub login_picker: Option<usize>,
    pub pending_confirm: Option<ConfirmAction>,
    pub prompt: Option<PromptState<C>>,
    pub login: Option<LoginState<S>>,
}

impl View for Panels<String, Vec<char>> {
    type V = Panels<Seq<char>, Seq<char>>;

    open spec fn view(&self) -> Panels<Seq<char>, Seq<char>> {
        Panels {
            context_menu: self.context_menu,
            help: self.help,
            quality_picker: self.quality_picker,
            login_picker: self.login_picker,
            pending_confirm: self.pending_confirm,
            prompt: match self.prompt {
                Some(prompt) => Some(prompt@),
                None => None,
            },
            login: match self.login {
                Some(login) => Some(login@),
                None => None,
            },
        }
    }
}

/// The view of the panels, folded: what is said of the whole program need not
/// look inside.
#[verifier::opaque]
pub open spec fn panels_view(panels: Panels<String, Vec<char>>) -> Panels<Seq<char>, Seq<char>> {
    panels@
}

impl Panels<Seq<char>, Seq<char>> {
    /// With no panel open.
    pub open spec fn closed() -> Self {
        Panels {
            context_menu: None,
            help: HelpPane { open: false, offset: 0 },
            quality_picker: None,
            login_picker: None,
            pending_confirm: None,
            prompt: None,
            login: None,
        }
    }

    /// The mark in the song menu moved; a closed menu stays closed.
    pub open spec fn menu_at(self, cursor: usize) -> Self {
        match self.context_menu {
            Some(menu) => Panels {
                context_menu: Some(ContextMenu { cursor, ..menu }),
                ..self
            },
            None => self,
        }
    }

    pub open spec fn picker_step(self, delta: int) -> Self {
        match self.quality_picker {
            Some(picker) => Panels {
                quality_picker: Some(
                    QualityPicker {
                        cursor: stepped(picker.cursor, QUALITIES as nat, delta),
                        ..picker
                    },
                ),
                ..self
            },
            None => self,
        }
    }

    pub open spec fn with_prompt(self, prompt: Option<PromptState<Seq<char>>>) -> Self {
        Panels { prompt, ..self }
    }

    pub open spec fn edit_prompt(self, edit: Edit) -> Self {
        match self.prompt {
            Some(prompt) => self.with_prompt(
                Some(PromptState { buffer: prompt.buffer.edit(edit), ..prompt }),
            ),
            None => self,
        }
    }

    pub open spec fn with_login(self, login: Option<LoginState<Seq<char>>>) -> Self {
        Panels { login, ..self }
    }

    /// A login that is still going on says something.
    pub open spec fn login_says(self, message: Seq<char>) -> Self {
        match self.login {
            Some(login) => if login.finished {
                self
            } else {
                self.with_login(Some(LoginState { message, ..login }))
            },
            None => self,
        }
    }

    /// The code of a login is there.
    pub open spec fn login_code(
        self,
        key: Seq<char>,
        qr: Seq<char>,
        message: Seq<char>,
    ) -> Self {
        self.with_login(
            Some(
                LoginState {
                    key,
                    qr,
                    message,
                    finished: false,
                    succeeded: self.login matches Some(login) && login.succeeded,
                },
            ),
        )
    }
}

impl Panels<String, Vec<char>> {
    pub fn new() -> (r: Self)
        ensures
            panels_view(r) == Panels::<Seq<char>, Seq<char>>::closed(),
    {
        proof {
            reveal(panels_view);
        }
        Panels {
            context_menu: None,
            help: HelpPane { open: false, offset: 0 },
            quality_picker: None,
            login_picker: None,
            pending_confirm: None,
            prompt: None,
            login: None,
        }
    }

    pub fn help(&self) -> (r: HelpPane)
        ensures
            r == panels_view(*self).help,
    {
        proof {
            reveal(panels_view);
        }
        self.help
    }

    pub fn login_picker(&self) -> (r: Option<usize>)
        ensures
            r == panels_view(*self).login_picker,
    {
        proof {
            reveal(panels_view);
        }
        self.login_picker
    }

    pub fn pending_confirm(&self) -> (r: Option<ConfirmAction>)
        ensures
            r == panels_view(*self).pending_confirm,
    {
        proof {
            reveal(panels_view);
        }
        self.pending_confirm
    }

    pub fn set_context_menu(&mut self, context_menu: Option<ContextMenu>)
        ensures
            panels_view(*final(self)) == (Panels { context_menu, ..panels_view(*old(self)) }),
    {
        proof {
            reveal(panels_view);
        }
        self.context_menu = context_menu;
    }

    pub fn set_help(&mut self, help: HelpPane)
        ensures
            panels_view(*final(self)) == (Panels { help, ..panels_view(*old(self)) }),
    {
        proof {
            reveal(panels_view);
        }
        self.help = help;
    }

    pub fn set_quality_picker(&mut self, quality_picker: Option<QualityPicker>)
        ensures
            panels_view(*final(self)) == (Panels { quality_picker, ..panels_view(*old(self)) }),
    {
        proof {
            reveal(panels_view);
        }
        self.quality_picker = quality_picker;
    }

    pub fn set_login_picker(&mut self, login_picker: Option<usize>)
        ensures
            panels_view(*final(self)) == (Panels { login_picker, ..panels_view(*old(self)) }),
    {
        proof {
            reveal(panels_view);
        }
        self.login_picker = login_picker;
    }

    pub fn set_pending_confirm(&mut self, pending_confirm: Option<ConfirmAction>)
        ensures
            panels_view(*final(self)) == (Panels { pending_confirm, ..panels_view(*old(self)) }),
    {
        proof {
            reveal(panels_view);
        }
        self.pending_confirm = pending_confirm;
    }

    pub fn is_prompting(&self) -> (r: bool)
        ensures
            r == (panels_view(*self).prompt is Some),
    {
        proof {
            reveal(panels_view);
        }
        self.prompt.is_some()
    }

    pub fn has_menu(&self) -> (r: bool)
        ensures
            r == (panels_view(*self).context_menu is Some),
    {
        proof {
            reveal(panels_view);
        }
        self.context_menu.is_some()
    }

    pub fn has_picker(&self) -> (r: bool)
        ensures
            r == (panels_view(*self).quality_picker is Some),
    {
        proof {
            reveal(panels_view);
        }
        self.quality_picker.is_some()
    }

    pub fn has_login(&self) -> (r: bool)
        ensures
            r == (panels_view(*self).login is Some),
    {
        proof {
            reveal(panels_view);
        }
        self.login.is_some()
    }

    /// The marked place of the song menu.
    pub fn menu_cursor(&self) -> (r: usize)
        ensures
            r == (match panels_view(*self).context_menu {
                Some(menu) => menu.cursor,
                None => 0,
            }),
    {
        proof {
            reveal(panels_view);
        }
        match &self.context_menu {
            Some(menu) => menu.cursor,
            None => 0,
        }
    }

    pub fn menu_go(&mut self, cursor: usize)
        ensures
            panels_view(*final(self)) == panels_view(*old(self)).menu_at(cursor),
    {
        proof {
            reveal(panels_view);
        }
        match &mut self.context_menu {
            Some(menu) => {
                menu.cursor = cursor;
            },
            None => {},
        }
    }

    /// The entry at a place of the song menu, and the song that it is for.
    pub fn menu_choice(&self, i: usize) -> (r: Option<(MenuAction, Song)>)
        ensures
            r == (match panels_view(*self).context_menu {
                Some(menu) => match menu_item(menu.in_queue, i as int) {
                    Some(action) => Some((action, menu.song)),
                    None => None,
                },
                None => None,
            }),
    {
        proof {
            reveal(panels_view);
        }
        match &self.context_menu {
            Some(menu) => match menu.item(i) {
                Some(action) => Some((action, menu.song.clone())),
                None => None,
            },
            None => None,
        }
    }

    pub fn step_picker(&mut self, delta: isize)
        ensures
            panels_view(*final(self)) == panels_view(*old(self)).picker_step(delta as int),
    {
        proof {
            reveal(panels_view);
        }
        match &mut self.quality_picker {
            Some(picker) => {
                picker.cursor = step_cursor(picker.cursor, QUALITIES, delta);
            },
            None => {},
        }
    }

    /// Closes the choice of a quality and gives what was chosen.
    pub fn take_picker(&mut self) -> (r: Option<QualityPicker>)
        ensures
            r == panels_view(*old(self)).quality_picker,
            panels_view(*final(self)) == (Panels {
                quality_picker: None,
                ..panels_view(*old(self))
            }),
    {
        proof {
            reveal(panels_view);
        }
        self.quality_picker.take()
    }

    /// Asks for a line.
    pub fn open_prompt(&mut self, action: PromptAction)
        ensures
            panels_view(*final(self)) == panels_view(*old(self)).with_prompt(
                Some(PromptState { buffer: TextInput::<Seq<char>>::empty(), action }),
            ),
    {
        proof {
            reveal(panels_view);
        }
        self.prompt = Some(PromptState { buffer: TextInput::new(), action });
    }

    pub fn close_prompt(&mut self)
        ensures
            panels_view(*final(self)) == panels_view(*old(self)).with_prompt(None),
    {
        proof {
            reveal(panels_view);
        }
        self.prompt = None;
    }

    pub fn edit_prompt(&mut self, edit: Edit)
        requires
            panels_view(*old(self)).prompt matches Some(prompt) ==> prompt.buffer.chars.len()
                < usize::MAX,
        ensures
            panels_view(*final(self)) == panels_view(*old(self)).edit_prompt(edit),
    {
        proof {
            reveal(panels_view);
        }
        match &mut self.prompt {
            Some(prompt) => {
                prompt.buffer.edit(edit);
            },
            None => {},
        }
    }

    /// The line that was asked for, and what for.
    pub fn prompt_line(&self) -> (r: Option<(String, PromptAction)>)
        ensures
            match (r, panels_view(*self).prompt) {
                (Some((line, action)), Some(prompt)) => line@ == prompt.buffer.chars && action
                    == prompt.action,
                (None, None) => true,
                _ => false,
            },
    {
        proof {
            reveal(panels_view);
        }
        match &self.prompt {
            Some(prompt) => Some((prompt.buffer.text(), prompt.action)),
            None => None,
        }
    }

    pub fn set_login(&mut self, login: LoginState<String>)
        ensures
            panels_view(*final(self)) == panels_view(*old(self)).with_login(Some(login@)),
    {
        proof {
            reveal(panels_view);
        }
        self.login = Some(login);
    }

    pub fn close_login(&mut self)
        ensures
            panels_view(*final(self)) == panels_view(*old(self)).with_login(None),
    {
        proof {
            reveal(panels_view);
        }
        self.login = None;
    }

    /// Whether a login is going on.
    pub fn is_logging_in(&self) -> (r: bool)
        ensures
            r == (panels_view(*self).login matches Some(login) && !login.finished),
    {
        proof {
            reveal(panels_view);
        }
        match &self.login {
            Some(login) => !login.finished,
            None => false,
        }
    }

    /// The key of the login that is going on; empty while there is none.
    pub fn login_key(&self) -> (r: String)
        ensures
            r@ == (match panels_view(*self).login {
                Some(login) => login.key,
                None => Seq::empty(),
            }),
    {
        proof {
            reveal(panels_view);
        }
        match &self.login {
            Some(login) => login.key.clone(),
            None => String::new(),
        }
    }

    pub fn say_in_login(&mut self, message: String)
        ensures
            panels_view(*final(self)) == panels_view(*old(self)).login_says(message@),
    {
        proof {
            reveal(panels_view);
        }
        match &mut self.login {
            Some(login) => {
                if !login.finished {
                    login.message = message;
                }
            },
            None => {},
        }
    }

    pub fn show_code(&mut self, key: String, qr: String, message: String)
        ensures
            panels_view(*final(self)) == panels_view(*old(self)).login_code(key@, qr@, message@),
    {
        proof {
            reveal(panels_view);
        }
        let succeeded = match &self.login {
            Some(login) => login.succeeded,
            None => false,
        };
        self.login = Some(LoginState { key, qr, message, finished: false, succeeded });
    }
}

} // verus!
