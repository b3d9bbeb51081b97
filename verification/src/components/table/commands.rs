use crate::boundary::models::{Scope, Session, Target};
use vstd::prelude::*;

verus! {

/// Something the user can do with a row: what it is called and the key that
/// triggers it.
pub struct Command<Id> where Id: Copy {
    pub id: Id,
    pub name: String,
    pub shortcut: String,
}

impl<Id> Command<Id> where Id: Copy {
    pub fn new(id: Id, name: String, shortcut: String) -> (c: Self)
        ensures
            c.id == id,
            c.name == name,
            c.shortcut == shortcut,
    {
        Self { id, name, shortcut }
    }
}

/// A kind of row that offers commands.
pub trait HasCommands {
    type Id: Copy;

    /// Whether the row permits the command.
    spec fn permits(&self, id: Self::Id) -> bool;

    /// The commands that rows of this kind offer.
    fn commands() -> Vec<Command<Self::Id>>;

    /// Whether this row permits the command.
    fn is_enabled(&self, id: Self::Id) -> (b: bool)
        ensures
            b == self.permits(id),
    ;
}

/// What can be done with a scope.
#[derive(Debug, Clone, Copy, PartialEq, Eq, Structural)]
pub enum Commands {
    ListScopes,
    ListTargets,
}

/// What can be done with a scope.
#[derive(Debug, Clone, Copy, PartialEq, Eq, Structural)]
pub enum ScopeAction {
    ListScopes,
    ListTargets,
}

/// What can be done with a target.
#[derive(Debug, Clone, Copy, PartialEq, Eq, Structural)]
pub enum TargetCommands {
    Connect,
    ShowConnections,
}

/// What can be done with a session.
#[derive(Debug, Clone, Copy, PartialEq, Eq, Structural)]
pub enum SessionCommands {
    Stop,
}

impl HasCommands for Scope {
    type Id = Commands;

    open spec fn permits(&self, id: Commands) -> bool {
        match id {
            Commands::ListScopes => self@.may_list_child_scopes(),
            Commands::ListTargets => self@.may_list_targets(),
        }
    }

    fn commands() -> (list: Vec<Command<Commands>>)
        ensures
            list@.len() == 2,
            list@[0].id == Commands::ListScopes,
            list@[0].name@ == "List scopes"@,
            list@[1].id == Commands::ListTargets,
            list@[1].name@ == "List targets"@,
            list@[0].shortcut@ == "⏎"@,
            list@[1].shortcut@ == "⏎"@,
    {
        let mut list: Vec<Command<Commands>> = Vec::new();
        list.push(Command::new(Commands::ListScopes, "List scopes".to_owned(), "⏎".to_owned()));
        list.push(Command::new(Commands::ListTargets, "List targets".to_owned(), "⏎".to_owned()));
        list
    }

    fn is_enabled(&self, id: Commands) -> (b: bool) {
        match id {
            Commands::ListScopes => self.can_list_child_scopes(),
            Commands::ListTargets => self.can_list_targets(),
        }
    }
}

impl HasCommands for Target {
    type Id = TargetCommands;

    open spec fn permits(&self, id: TargetCommands) -> bool {
        match id {
            TargetCommands::Connect => self@.may_connect(),
            TargetCommands::ShowConnections => true,
        }
    }

    fn commands() -> (list: Vec<Command<TargetCommands>>)
        ensures
            list@.len() == 2,
            list@[0].id == TargetCommands::Connect,
            list@[0].name@ == "Connect"@,
            list@[0].shortcut@ == "c"@,
            list@[1].id == TargetCommands::ShowConnections,
            list@[1].name@ == "Show connections"@,
            list@[1].shortcut@ == "Shift+C"@,
    {
        let mut list: Vec<Command<TargetCommands>> = Vec::new();
        list.push(Command::new(TargetCommands::Connect, "Connect".to_owned(), "c".to_owned()));
        list.push(
            Command::new(
                TargetCommands::ShowConnections,
                "Show connections".to_owned(),
                "Shift+C".to_owned(),
            ),
        );
        list
    }

    fn is_enabled(&self, id: TargetCommands) -> (b: bool) {
        match id {
            TargetCommands::Connect => self.can_connect(),
            TargetCommands::ShowConnections => true,
        }
    }
}

impl HasCommands for Session {
    type Id = SessionCommands;

    open spec fn permits(&self, id: SessionCommands) -> bool {
        self@.may_cancel()
    }

    fn commands() -> (list: Vec<Command<SessionCommands>>)
        ensures
            list@.len() == 1,
            list@[0].id == SessionCommands::Stop,
            list@[0].name@ == "Stop"@,
            list@[0].shortcut@ == "Ctrl+D"@,
    {
        let mut list: Vec<Command<SessionCommands>> = Vec::new();
        list.push(Command::new(SessionCommands::Stop, "Stop".to_owned(), "Ctrl+D".to_owned()));
        list
    }

    fn is_enabled(&self, id: SessionCommands) -> (b: bool) {
        match id {
            SessionCommands::Stop => self.can_cancel(),
        }
    }
}

} // verus!
