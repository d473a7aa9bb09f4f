//! Commands that scripts give the scene director. A command is a record of
//! what the script asked for; the director carries it out on the scene.

use vstd::prelude::*;
use vstd::string::to_string_from_display_ensures;

verus! {

/// Plays a piece of background music.
#[derive(Clone)]
pub struct SceCommandMusic {
    name: String,
}

impl SceCommandMusic {
    /// The name of the piece, as text.
    pub closed spec fn spec_name(&self) -> Seq<char> {
        self.name@
    }

    /// The command that plays the piece `name`. The second argument of the
    /// script's call carries no meaning and is dropped.
    pub fn new(name: String, unknown: i32) -> (command: SceCommandMusic)
        ensures
            command.spec_name() == name@,
    {
        SceCommandMusic { name }
    }

    pub fn name(&self) -> (name: &String)
        ensures
            name@ == self.spec_name(),
    {
        &self.name
    }
}

/// Turns one role to face another.
#[derive(Clone, Copy, Debug, PartialEq, Eq, Structural)]
pub struct SceCommandRoleFaceRole {
    role_id: i32,
    role_id2: i32,
}

impl SceCommandRoleFaceRole {
    /// The role that turns.
    pub closed spec fn spec_role_id(&self) -> i32 {
        self.role_id
    }

    /// The role that it turns to.
    pub closed spec fn spec_target_id(&self) -> i32 {
        self.role_id2
    }

    /// The command that turns role `role_id` to face role `role_id2`.
    pub fn new(role_id: i32, role_id2: i32) -> (command: SceCommandRoleFaceRole)
        ensures
            command.spec_role_id() == role_id,
            command.spec_target_id() == role_id2,
    {
        SceCommandRoleFaceRole { role_id, role_id2 }
    }

    pub fn role_id(&self) -> (id: i32)
        ensures
            id == self.spec_role_id(),
    {
        self.role_id
    }

    pub fn target_id(&self) -> (id: i32)
        ensures
            id == self.spec_target_id(),
    {
        self.role_id2
    }
}

/// Puts a role at a place of the navigation grid.
#[derive(Clone)]
pub struct SceCommandRoleSetPos {
    role_id: String,
    x: i32,
    y: i32,
}

impl SceCommandRoleSetPos {
    /// The key of the role: its number in decimal notation.
    pub closed spec fn spec_role_id(&self) -> String {
        self.role_id
    }

    /// The place on the navigation grid.
    pub closed spec fn spec_place(&self) -> (i32, i32) {
        (self.x, self.y)
    }

    /// The command that puts role `role_id` at the grid place `(x, y)`. The
    /// role is kept by its key, the text that the number prints as.
    pub fn new(role_id: i32, x: i32, y: i32) -> (command: SceCommandRoleSetPos)
        ensures
            to_string_from_display_ensures::<i32>(&role_id, command.spec_role_id()),
            command.spec_place() == (x, y),
    {
        SceCommandRoleSetPos { role_id: role_id.to_string(), x, y }
    }

    pub fn role_id(&self) -> (id: &String)
        ensures
            *id == self.spec_role_id(),
    {
        &self.role_id
    }

    pub fn x(&self) -> (x: i32)
        ensures
            x == self.spec_place().0,
    {
        self.x
    }

    pub fn y(&self) -> (y: i32)
        ensures
            y == self.spec_place().1,
    {
        self.y
    }
}

} // verus!
