//! The purposes a window can serve.
use vstd::prelude::*;

verus! {

/// A fixed purpose of a window. At most one live window exists per role.
#[derive(Clone, Copy, Debug, PartialEq, Eq, Structural)]
pub enum Role {
    Translate,
    Recognize,
    Screenshot,
    Config,
    Updater,
    Daemon,
}

/// The label under which the windowing layer knows a role's window.
pub open spec fn label_of(role: Role) -> Seq<char> {
    match role {
        Role::Translate => "translate"@,
        Role::Recognize => "recognize"@,
        Role::Screenshot => "screenshot"@,
        Role::Config => "config"@,
        Role::Updater => "updater"@,
        Role::Daemon => "daemon"@,
    }
}

/// The title shown on a role's window.
pub open spec fn title_of(role: Role) -> Seq<char> {
    match role {
        Role::Translate => "翻译"@,
        Role::Recognize => "文字识别"@,
        Role::Screenshot => "截图"@,
        Role::Config => "配置"@,
        Role::Updater => "更新"@,
        Role::Daemon => "Daemon"@,
    }
}

impl Role {
    /// The label under which the windowing layer knows this role's window.
    pub fn label(&self) -> (r: &'static str)
        ensures
            r@ == label_of(*self),
    {
        match self {
            Role::Translate => "translate",
            Role::Recognize => "recognize",
            Role::Screenshot => "screenshot",
            Role::Config => "config",
            Role::Updater => "updater",
            Role::Daemon => "daemon",
        }
    }

    /// The title shown on this role's window.
    pub fn title(&self) -> (r: &'static str)
        ensures
            r@ == title_of(*self),
    {
        match self {
            Role::Translate => "翻译",
            Role::Recognize => "文字识别",
            Role::Screenshot => "截图",
            Role::Config => "配置",
            Role::Updater => "更新",
            Role::Daemon => "Daemon",
        }
    }
}

} // verus!
