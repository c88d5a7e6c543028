//! Mining modes.
use crate::platform::{ascii_lowercase, lowercase, unicode_lowercase};
use crate::text::same_text;
use vstd::prelude::*;
use vstd::utf8::*;

verus! {

/// The kinds of mining modes.
#[derive(Debug, Clone, Copy, PartialEq, Eq, Structural)]
pub enum MiningModeType {
    Eco,
    Turbo,
    Ludicrous,
    Custom,
    User,
}

impl Default for MiningModeType {
    fn default() -> (mode: Self)
        ensures
            mode == MiningModeType::Eco,
    {
        MiningModeType::Eco
    }
}

/// The mode of a name in lower case. A name that is not known stands for Eco.
pub open spec fn mode_of_lowercase(name: Seq<char>) -> MiningModeType {
    if name == "eco"@ {
        MiningModeType::Eco
    } else if name == "turbo"@ {
        MiningModeType::Turbo
    } else if name == "ludicrous"@ {
        MiningModeType::Ludicrous
    } else if name == "custom"@ {
        MiningModeType::Custom
    } else if name == "user"@ {
        MiningModeType::User
    } else {
        MiningModeType::Eco
    }
}

/// A text in lower case.
pub open spec fn lowercase_of(text: Seq<char>) -> Seq<char> {
    if is_ascii_chars(text) {
        text.map_values(|c: char| ascii_lowercase(c))
    } else {
        unicode_lowercase(text)
    }
}

/// The mode of a name in any case.
pub open spec fn mode_of_name(name: Seq<char>) -> MiningModeType {
    mode_of_lowercase(lowercase_of(name))
}

impl MiningModeType {
    /// The name of a mode.
    pub open spec fn spec_name(self) -> Seq<char> {
        match self {
            MiningModeType::Eco => "Eco"@,
            MiningModeType::Turbo => "Turbo"@,
            MiningModeType::Ludicrous => "Ludicrous"@,
            MiningModeType::Custom => "Custom"@,
            MiningModeType::User => "User"@,
        }
    }

    /// The name of a mode.
    pub fn to_string(&self) -> (name: String)
        ensures
            name@ == self.spec_name(),
    {
        match self {
            MiningModeType::Eco => "Eco".to_owned(),
            MiningModeType::Turbo => "Turbo".to_owned(),
            MiningModeType::Ludicrous => "Ludicrous".to_owned(),
            MiningModeType::Custom => "Custom".to_owned(),
            MiningModeType::User => "User".to_owned(),
        }
    }

    /// The mode of a name in lower case.
    pub fn from_lowercase(name: &str) -> (mode: MiningModeType)
        ensures
            mode == mode_of_lowercase(name@),
    {
        if same_text(name, "eco") {
            MiningModeType::Eco
        } else if same_text(name, "turbo") {
            MiningModeType::Turbo
        } else if same_text(name, "ludicrous") {
            MiningModeType::Ludicrous
        } else if same_text(name, "custom") {
            MiningModeType::Custom
        } else if same_text(name, "user") {
            MiningModeType::User
        } else {
            MiningModeType::Eco
        }
    }
}

impl From<&str> for MiningModeType {
    fn from(s: &str) -> (mode: Self) {
        MiningModeType::from_lowercase(lowercase(s).as_str())
    }
}

impl vstd::std_specs::convert::FromSpecImpl<&str> for MiningModeType {
    open spec fn obeys_from_spec() -> bool {
        true
    }

    open spec fn from_spec(s: &str) -> Self {
        mode_of_name(s@)
    }
}

impl From<String> for MiningModeType {
    fn from(s: String) -> (mode: Self) {
        Self::from(s.as_str())
    }
}

impl vstd::std_specs::convert::FromSpecImpl<String> for MiningModeType {
    open spec fn obeys_from_spec() -> bool {
        true
    }

    open spec fn from_spec(s: String) -> Self {
        mode_of_name(s@)
    }
}

/// A mode is read back from its name.
pub proof fn law_mode_is_read_back(mode: MiningModeType)
    ensures
        mode_of_name(mode.spec_name()) == mode,
{
    reveal_strlit("Eco");
    reveal_strlit("Turbo");
    reveal_strlit("Ludicrous");
    reveal_strlit("Custom");
    reveal_strlit("User");
    reveal_strlit("eco");
    reveal_strlit("turbo");
    reveal_strlit("ludicrous");
    reveal_strlit("custom");
    reveal_strlit("user");
    let name = mode.spec_name();
    let lower = lowercase_of(name);
    assert(is_ascii_chars(name));
    match mode {
        MiningModeType::Eco => {
            assert(lower =~= "eco"@);
        },
        MiningModeType::Turbo => {
            assert(lower =~= "turbo"@);
        },
        MiningModeType::Ludicrous => {
            assert(lower =~= "ludicrous"@);
        },
        MiningModeType::Custom => {
            assert(lower =~= "custom"@);
        },
        MiningModeType::User => {
            assert(lower =~= "user"@);
        },
    }
    assert("eco"@.len() == 3 && "turbo"@.len() == 5 && "ludicrous"@.len() == 9 && "custom"@.len()
        == 6 && "user"@.len() == 4);
}

/// The letter case of a name does not matter, for any names that are the same in lower case.
pub proof fn law_mode_names_ignore_case(a: Seq<char>, b: Seq<char>)
    requires
        lowercase_of(a) == lowercase_of(b),
    ensures
        mode_of_name(a) == mode_of_name(b),
{
}

/// No two modes share a name.
pub proof fn law_mode_names_differ(a: MiningModeType, b: MiningModeType)
    requires
        a != b,
    ensures
        a.spec_name() != b.spec_name(),
{
    law_mode_is_read_back(a);
    law_mode_is_read_back(b);
}

/// A mining mode and what it uses of the hardware.
#[derive(Debug, PartialEq, Eq)]
pub struct MiningMode {
    pub mode_type: MiningModeType,
    pub mode_name: String,
    pub cpu_usage_percentage: u32,
    pub gpu_usage_percentage: u32,
}

/// The contents of a [`MiningMode`].
pub ghost struct MiningModeView {
    pub mode_type: MiningModeType,
    pub mode_name: Seq<char>,
    pub cpu_usage_percentage: u32,
    pub gpu_usage_percentage: u32,
}

impl View for MiningMode {
    type V = MiningModeView;

    open spec fn view(&self) -> MiningModeView {
        MiningModeView {
            mode_type: self.mode_type,
            mode_name: self.mode_name@,
            cpu_usage_percentage: self.cpu_usage_percentage,
            gpu_usage_percentage: self.gpu_usage_percentage,
        }
    }
}

impl Clone for MiningMode {
    fn clone(&self) -> (copy: Self)
        ensures
            copy == *self,
    {
        MiningMode {
            mode_type: self.mode_type,
            mode_name: self.mode_name.clone(),
            cpu_usage_percentage: self.cpu_usage_percentage,
            gpu_usage_percentage: self.gpu_usage_percentage,
        }
    }
}

/// A span of time: whole seconds and the nanoseconds beyond them.
#[derive(Debug, Clone, Copy, PartialEq, Eq, Structural)]
pub struct MiningTime {
    pub secs: u64,
    pub nanos: u32,
}

} // verus!
